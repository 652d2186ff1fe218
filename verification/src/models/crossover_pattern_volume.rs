//! The crossover pattern of the volume moving averages.
use crate::models::crossover_pattern;
use vstd::prelude::*;

verus! {

/// A crossover of the volume moving averages.
#[derive(Debug, Copy, Clone, PartialEq, Eq, Structural, Hash, PartialOrd, Ord, Default)]
pub struct CrossoverPattern(pub crossover_pattern::CrossoverPattern);

} // verus!
