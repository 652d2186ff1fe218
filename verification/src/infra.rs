//! The repository handles. They carry no state: reading price rows from CSV
//! and averaging closes over a window are done by the application around the
//! library, which holds the CSV reader and the floating-point averaging.
use vstd::prelude::*;

verus! {

/// Handle of the moving-average repository.
#[derive(Debug, Copy, Clone, Default, Ord, PartialOrd, Eq, PartialEq)]
pub struct SMARepoImpl;

impl SMARepoImpl {
    pub fn new() -> (repo: Self)
        ensures
            repo == SMARepoImpl,
    {
        SMARepoImpl
    }
}

/// Handle of the price-row repository.
#[derive(Debug, Copy, Clone, Default, Ord, PartialOrd, Eq, PartialEq)]
pub struct StockRepoImpl;

impl StockRepoImpl {
    pub fn new() -> (repo: Self)
        ensures
            repo == StockRepoImpl,
    {
        StockRepoImpl
    }
}

} // verus!
