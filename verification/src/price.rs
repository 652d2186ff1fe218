//! A price is an IEEE 754 double held by its bit pattern, so that the library
//! keeps the exact value while every comparison on it is ordinary integer logic.
use vstd::prelude::*;

verus! {

/// Result of comparing two values that are both ordered (neither is NaN).
#[derive(Debug, Copy, Clone, PartialEq, Eq, Structural, Hash, PartialOrd, Ord)]
pub enum Comparison {
    Less,
    Equal,
    Greater,
}

impl Comparison {
    /// The comparison seen from the other side.
    pub open spec fn spec_reverse(self) -> Comparison {
        match self {
            Comparison::Less => Comparison::Greater,
            Comparison::Equal => Comparison::Equal,
            Comparison::Greater => Comparison::Less,
        }
    }
}

/// Compares two mathematical integers.
pub open spec fn compare_int(a: int, b: int) -> Comparison {
    if a < b {
        Comparison::Less
    } else if a == b {
        Comparison::Equal
    } else {
        Comparison::Greater
    }
}

/// The sign bit of a binary64 value.
pub open spec fn sign_bit() -> nat {
    0x8000_0000_0000_0000
}

/// The bit pattern of positive infinity; every larger magnitude is a NaN.
pub open spec fn infinity_magnitude() -> nat {
    0x7ff0_0000_0000_0000
}

/// The bit pattern without its sign bit.
pub open spec fn magnitude(bits: u64) -> nat {
    (bits as nat) % sign_bit()
}

pub open spec fn is_negative_bits(bits: u64) -> bool {
    bits as nat >= sign_bit()
}

pub open spec fn is_nan_bits(bits: u64) -> bool {
    magnitude(bits) > infinity_magnitude()
}

/// Neither infinite nor NaN.
pub open spec fn is_finite_bits(bits: u64) -> bool {
    magnitude(bits) < infinity_magnitude()
}

/// An integer that orders all non-NaN binary64 values as the reals they
/// denote do: larger magnitudes are larger bit patterns, the sign flips the
/// order, and both zeros map to 0.
pub open spec fn order_key(bits: u64) -> int {
    if is_negative_bits(bits) {
        -(magnitude(bits) as int)
    } else {
        magnitude(bits) as int
    }
}

/// IEEE 754 comparison of two binary64 values: `None` when either is NaN.
pub open spec fn partial_compare_bits(a: u64, b: u64) -> Option<Comparison> {
    if is_nan_bits(a) || is_nan_bits(b) {
        None
    } else {
        Some(compare_int(order_key(a), order_key(b)))
    }
}

/// A binary64 value, held by its bit pattern (`f64::to_bits`).
#[derive(Debug, Copy, Clone, Default)]
pub struct Price {
    pub bits: u64,
}

/// `==` on prices is IEEE equality, as on `f64`: NaN equals nothing and the
/// two zeros are equal.
impl PartialEq for Price {
    fn eq(&self, other: &Price) -> (r: bool) {
        match self.partial_compare(other) {
            Some(Comparison::Equal) => true,
            _ => false,
        }
    }
}

impl vstd::std_specs::cmp::PartialEqSpecImpl for Price {
    open spec fn obeys_eq_spec() -> bool {
        true
    }

    open spec fn eq_spec(&self, other: &Price) -> bool {
        partial_compare_bits(self.bits, other.bits) == Some(Comparison::Equal)
    }
}

impl Price {
    pub open spec fn spec_is_nan(self) -> bool {
        is_nan_bits(self.bits)
    }

    pub open spec fn spec_is_finite(self) -> bool {
        is_finite_bits(self.bits)
    }

    pub open spec fn spec_partial_compare(self, other: Price) -> Option<Comparison> {
        partial_compare_bits(self.bits, other.bits)
    }

    /// The value whose bit pattern is `bits`.
    pub fn from_bits(bits: u64) -> (p: Price)
        ensures
            p.bits == bits,
    {
        Price { bits }
    }

    /// The quiet NaN that `f64::NAN` denotes.
    pub fn nan() -> (p: Price)
        ensures
            p.bits == 0x7ff8_0000_0000_0000,
            p.spec_is_nan(),
    {
        Price { bits: 0x7ff8_0000_0000_0000 }
    }

    /// Positive zero.
    pub fn zero() -> (p: Price)
        ensures
            p.bits == 0,
            !p.spec_is_nan(),
            order_key(p.bits) == 0,
    {
        Price { bits: 0 }
    }

    pub fn is_nan(&self) -> (r: bool)
        ensures
            r == self.spec_is_nan(),
    {
        self.bits % 0x8000_0000_0000_0000 > 0x7ff0_0000_0000_0000
    }

    pub fn is_finite(&self) -> (r: bool)
        ensures
            r == self.spec_is_finite(),
    {
        self.bits % 0x8000_0000_0000_0000 < 0x7ff0_0000_0000_0000
    }

    /// `f64::partial_cmp`: `None` when either value is NaN, otherwise the
    /// order of the two reals (the two zeros are equal).
    pub fn partial_compare(&self, other: &Price) -> (r: Option<Comparison>)
        ensures
            r == self.spec_partial_compare(*other),
    {
        if self.is_nan() || other.is_nan() {
            return None;
        }
        let ma = self.bits % 0x8000_0000_0000_0000;
        let mb = other.bits % 0x8000_0000_0000_0000;
        let na = self.bits >= 0x8000_0000_0000_0000;
        let nb = other.bits >= 0x8000_0000_0000_0000;
        // Compare the signed magnitudes without leaving u64.
        let c = if !na && !nb {
            if ma < mb {
                Comparison::Less
            } else if ma == mb {
                Comparison::Equal
            } else {
                Comparison::Greater
            }
        } else if na && nb {
            if mb < ma {
                Comparison::Less
            } else if ma == mb {
                Comparison::Equal
            } else {
                Comparison::Greater
            }
        } else if na {
            // negative against non-negative: equal only for the two zeros
            if ma == 0 && mb == 0 {
                Comparison::Equal
            } else {
                Comparison::Less
            }
        } else {
            if ma == 0 && mb == 0 {
                Comparison::Equal
            } else {
                Comparison::Greater
            }
        };
        Some(c)
    }
}

/// Swapping the operands of a comparison reverses its result; NaN is
/// unordered against everything, itself included.
pub proof fn lemma_partial_compare_antisymmetric(a: Price, b: Price)
    ensures
        a.spec_partial_compare(b) is None <==> (a.spec_is_nan() || b.spec_is_nan()),
        a.spec_partial_compare(b) matches Some(c) ==> b.spec_partial_compare(a) == Some(
            c.spec_reverse(),
        ),
{
}

/// Comparison of non-NaN prices is transitive.
pub proof fn lemma_partial_compare_transitive(a: Price, b: Price, c: Price)
    requires
        a.spec_partial_compare(b) == Some(Comparison::Less),
        b.spec_partial_compare(c) == Some(Comparison::Less),
    ensures
        a.spec_partial_compare(c) == Some(Comparison::Less),
{
}

} // verus!
