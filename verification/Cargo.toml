[package]
name = "quantitative_data_analysis_rs"
version = "0.1.0"
edition = "2021"
publish = false

[dependencies]
chrono = { version = "0.4", features = ["serde"] }
serde = { version = "1", features = ["derive"] }
csv = "1"
anyhow = "1"
async-trait = "0.1"
ta = "0.5"
simple_moving_average = "1"
num-traits = "0.2"
strum = { version = "*", features = ["derive"] }
thiserror = "*"
rayon = "1"
itertools = "*"

[dev-dependencies]
chrono = "0.4"
