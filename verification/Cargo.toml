[package]
name = "attributes_builder"
version = "0.1.0"
edition = "2021"
publish = false

[dependencies]
alloy-consensus = "=0.3.6"
alloy-eips = "=0.3.6"
alloy-primitives = "=0.8.26"
alloy-rlp = "=0.3.17"
alloy-rpc-types-engine = "=0.3.6"
async-trait = "=0.1.92"
op-alloy-consensus = "=0.2.12"
op-alloy-genesis = "=0.2.12"
op-alloy-protocol = "=0.2.12"
op-alloy-rpc-types-engine = "=0.2.12"
