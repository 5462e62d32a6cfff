[package]
name = "chia_sdk_driver"
version = "0.1.0"
edition = "2021"
publish = false

[dependencies]
chia-protocol = "=0.13.0"
chia-puzzles = "=0.13.0"
clvm-traits = "=0.13.0"
clvmr = "=0.8.0"
num-bigint = "=0.4.8"
p256 = "=0.13.2"

[dev-dependencies]
chia-bls = "=0.13.0"
chia-consensus = "=0.13.0"
clvm-utils = "=0.13.0"
