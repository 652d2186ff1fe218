# quantitative_data_analysis_rs

Stock-market analysis rules with contracts proved by Verus.

- `src/` is the verified library. Prices are IEEE 754 doubles held by their
  bit patterns (`price::Price`), so comparisons on them are exact integer
  logic; dates are chrono day numbers (`date::Date`). On top of these sit the
  trading-signal rules (moving-average crossovers and comparisons, MACD
  crossovers, engulfing, star and high/low direction patterns), the
  trend-reversal vote, the crossover analyses (observations, chance counts,
  latest chances), company screening and code normalisation, scoring presets,
  and the date-ordered bookkeeping of technical-analysis facts.
- `app/` holds what the verifier does not take: the binary64 indicator
  arithmetic (through `ta` and `simple_moving_average`), CSV reading, the
  asynchronous repository traits and serde-enabled copies of library types.
- `tests/` exercises the library on concrete values.
