[package]
name = "pandora"
version = "0.1.0"
edition = "2021"
publish = false

[dependencies]
cortex-m = "0.7"
cortex-m-rt = "0.7"
nb = "1"
panic-semihosting = "0.6"
stm32l4xx-hal = { version = "0.7", features = ["stm32l475", "rt"] }
