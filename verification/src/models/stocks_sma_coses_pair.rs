//! Trading days together with the crossover-strategy days computed from them.
use crate::models::sma_cos::SmaCos;
use crate::models::stock::Stock;
use vstd::prelude::*;

verus! {

pub struct StocksSmaCosesPair<'a> {
    pub stocks: &'a [Stock],
    pub sma_coses: &'a [SmaCos],
}

} // verus!
