//! Trading days together with the moving average crossover days computed
//! from them.
use crate::models::macos::MACOS;
use crate::models::stock::Stock;
use vstd::prelude::*;

verus! {

pub struct StocksMACOSESPair<'a> {
    pub stocks: &'a [Stock],
    pub macoses: &'a [MACOS],
}

} // verus!
