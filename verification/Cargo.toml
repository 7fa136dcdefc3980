[package]
name = "i2c_master"
version = "0.1.0"
edition = "2021"
publish = false

[dependencies]
stm32f103xx = "*"
embedded-hal = "0.2"
