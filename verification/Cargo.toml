[package]
name = "sx1262-mesh-rs"
version = "0.1.0"
edition = "2021"
publish = false

[dependencies]
stm32wlxx-hal = { version = "=0.6.1", features = ["stm32wle5", "rt"] }
embedded-nano-mesh = "=2.1.11"
embedded-io = "0.6"
cortex-m = "0.7"
embedded-hal = "1"
nb = "1"
rtt-target = "0.6"
ssd1306 = "0.8"
embedded-graphics = "0.8"
sx126x = "0.3"
rtic = { version = "2", features = ["thumbv7-backend"] }
rtic-monotonics = { version = "2", features = ["cortex-m-systick"] }
panic-halt = "*"
