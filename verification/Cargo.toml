[package]
name = "marty_core"
version = "0.1.0"
edition = "2021"
publish = false

[dependencies]
biquad = "*"
bytemuck = "*"
const_format = "*"
encoding_rs = "*"
log = "*"
modular-bitfield = "*"
