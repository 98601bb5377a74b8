[package]
name = "kornal"
version = "0.1.0"
edition = "2021"
publish = false

[dependencies]
embedded-hal = "1.0"
esp-hal = { version = "0.22", features = ["esp32"] }
esp-backtrace = { version = "0.14", features = ["esp32", "exception-handler", "panic-handler", "println"] }
esp-println = { version = "0.12", features = ["esp32"] }
fugit = "0.3"
