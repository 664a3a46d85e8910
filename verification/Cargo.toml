[package]
name = "meteo_core"
version = "0.1.0"
edition = "2021"
publish = false

[dependencies]
chrono = "*"
json = "*"
envconfig = "*"
rumqttc = { version = "*", default-features = false }
