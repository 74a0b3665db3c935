[package]
name = "cmdbot"
version = "0.1.0"
edition = "2021"
publish = false

[dependencies]
chrono = "=0.4.45"
num-format = "=0.4.4"
serenity = { version = "=0.11.7", features = ["collector"] }
tokio = { version = "=1.53.2", features = ["macros", "rt-multi-thread", "time"] }
base64 = "=0.13.1"
openweather-async = "=0.1.2"
