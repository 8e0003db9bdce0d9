[package]
name = "evm_disassembler"
version = "0.1.0"
edition = "2021"
publish = false

[dependencies]
hex = "0.4"
eyre = "0.6"
