[package]
name = "time_counter"
version = "0.1.0"
edition = "2021"
publish = false

[dependencies]
arrayvec = { version = "0.5", default-features = false }
cortex-m = "0.6"
cortex-m-rt = "0.6"
panic-halt = "0.2"
ssd1306 = "0.2"
stm32f0xx-hal = { version = "0.15", features = ["stm32f042", "rt"] }
