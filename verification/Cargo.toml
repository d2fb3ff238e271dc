[package]
name = "stm32u5"
version = "0.1.0"
edition = "2021"
publish = false

[dependencies]
cortex-m = "0.7"
libm = "0.2"
micromath = "2"
