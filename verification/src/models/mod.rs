pub mod buy_sell_signal;
pub mod crossover_pattern;
pub mod technical_analysis;
pub mod stock;
pub mod candle_stick;
pub mod ecp1;
pub mod high_low_direction_signal;
pub mod body_engulfing;
pub mod ecp2;
pub mod ms_es;
pub mod crossover_pattern_close;
pub mod crossover_pattern_volume;
pub mod sma;
pub mod sma_cos;
pub mod analysis_pattern;
pub mod latest_chance;
pub mod sma_cos_analysis_close;
pub mod sma_cos_analysis_volume;
pub mod stocks_sma_coses_pair;
pub mod macps;
pub mod sma_cps;
pub mod macd;
pub mod macd_cos;
pub mod trend_reversal_analysis;
pub mod company;
pub mod screening;
pub mod statement;
pub mod atr;
pub mod bollinger;
pub mod rsi;
pub mod volume_spike;
pub mod macos;
pub mod macos_analysis_close;
pub mod macos_analysis_volume;
pub mod stocks_macoses_pair;
pub mod scoring;
