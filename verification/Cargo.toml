[package]
name = "rgbw_dimmer"
version = "0.1.0"
edition = "2021"
publish = false

[dependencies]
cortex-m = "0.7"
cortex-m-rt = "0.7"
cortex-m-semihosting = "*"
embedded-hal = { version = "0.2", features = ["unproven"] }
nb = "1"
panic-semihosting = "*"
stm32f1xx-hal = { version = "0.8", features = ["stm32f103", "medium", "rt"] }
