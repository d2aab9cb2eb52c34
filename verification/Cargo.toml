[package]
name = "block_samples"
version = "0.1.0"
edition = "2021"
publish = false

[dependencies]
ckb-types = "=1.1.4"
ckb-constant = "=1.1.4"
ckb-merkle-mountain-range = "=0.5.2"
ckb-network = "=1.2.4"
log = "=0.4.34"
# Not used directly. ckb-network builds on tentacle-secio 0.6.9, which does
# not compile against tokio-util 0.7.20: this line holds tokio-util back.
tokio-util = "=0.7.13"
