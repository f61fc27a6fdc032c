[package]
name = "f3"
version = "0.1.0"
edition = "2021"
publish = false

[dependencies]
nb = "1"
embedded-hal = "0.2"
stm32f30x = "*"
