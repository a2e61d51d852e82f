[package]
name = "rollup_node"
version = "0.1.0"
edition = "2021"
publish = false

[dependencies]
kona-genesis = "=0.4.5"
kona-protocol = "=0.4.5"
kona-derive = "=0.4.5"
alloy-eips = "=1.8.3"
alloy-primitives = "=1.7.3"
alloy-rpc-types-engine = "=1.8.3"
op-alloy-rpc-types-engine = "=0.18.14"
alloy-transport = "=1.8.3"
async-trait = "=0.1.92"
thiserror = "=2.0.21"
tokio = { version = "=1.54.1", features = ["sync", "macros", "rt"] }
tokio-util = "=0.7.20"
