[package]
name = "esp32_gpio_wrapper"
version = "0.1.0"
edition = "2021"
publish = false

[dependencies]
async-trait = "*"
esp-idf-svc = "*"
tokio = { version = "*", features = ["sync", "rt"] }
