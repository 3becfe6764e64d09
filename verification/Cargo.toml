[package]
name = "pgpio16"
version = "0.1.0"
edition = "2021"
publish = false

[dependencies]
display-interface = "0.4"
embedded-hal = "0.2"
stm32f4xx-hal = { version = "0.14", features = ["stm32f407"] }
