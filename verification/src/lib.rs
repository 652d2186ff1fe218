//! Quantitative market analysis: price and date primitives, trading-signal
//! rules (crossovers, candlestick patterns, engulfing and star patterns),
//! trend-reversal aggregation, screening candidates and technical-analysis
//! fact bookkeeping, each with a verified contract.

pub mod date;
pub mod price;
pub mod search;
pub mod sorting;
pub mod text;
pub mod models;
pub mod infra;
