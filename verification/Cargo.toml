[package]
name = "led_fade"
version = "0.1.0"
edition = "2021"
publish = false

[dependencies]
esp-hal = { version = "=1.0.0-beta.0", features = ["esp32c3", "unstable"] }
esp-backtrace = { version = "=0.15.1", features = ["esp32c3", "panic-handler", "exception-handler", "println"] }
esp-println = { version = "=0.13.1", features = ["esp32c3"] }
