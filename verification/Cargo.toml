[package]
name = "h7_spi"
version = "0.1.0"
edition = "2021"
publish = false

[dependencies]
nb = "*"
stm32h7 = { version = "*", default-features = false, features = ["stm32h743"] }
