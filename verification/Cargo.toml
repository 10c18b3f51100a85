[package]
name = "i2c_master"
version = "0.1.0"
edition = "2021"
publish = false

[dependencies]
embedded-hal = "0.2"
stm32f103xx = "0.11"
