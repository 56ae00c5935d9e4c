[package]
name = "holomess"
version = "0.1.0"
edition = "2021"
publish = false

[dependencies]
get-port = "*"
getrandom = "=0.2.17"
sodoken = "=0.0.11"
tokio = { version = "1", features = ["rt-multi-thread", "macros", "time"] }
