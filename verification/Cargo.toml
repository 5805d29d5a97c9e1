[package]
name = "virtual_nes"
version = "0.1.0"
edition = "2021"
publish = false

[dependencies]
mos6502 = "*"
