[package]
name = "led_strip"
version = "0.1.0"
edition = "2021"
publish = false

[dependencies]
critical-section = "=1.2.0"
esp-backtrace = { version = "0.18", features = ["esp32c6", "panic-handler", "println"] }
esp-bootloader-esp-idf = { version = "0.4", features = ["esp32c6"] }
esp-hal = { version = "=1.0.0", features = ["esp32c6", "unstable"] }
esp-hal-smartled = { version = "=0.17.0", features = ["esp32c6"] }
esp-println = { version = "0.16", features = ["esp32c6", "log-04"] }
palette = { version = "=0.7.7", default-features = false, features = ["libm"] }
smart-leds = "=0.4.0"
