[package]
name = "seven_segment"
version = "0.1.0"
edition = "2021"
publish = false

[dependencies]
cortex-m = "0.7"
cortex-m-rt = "0.7"
panic-semihosting = "0.6"
stm32f3xx-hal = { version = "*", features = ["stm32f303xc"] }
