[package]
name = "enriched_block"
version = "0.1.0"
edition = "2021"
publish = false

[dependencies]
alloy-primitives = { version = "*", features = ["k256"] }
alloy-consensus = { version = "*", features = ["k256"] }
alloy-eips = "*"
alloy-evm = "*"
alloy-hardforks = "*"
tokio = { version = "*", features = ["rt", "macros"] }
futures = "*"

[dev-dependencies]
k256 = "*"
