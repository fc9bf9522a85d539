[package]
name = "chatroom"
version = "0.1.0"
edition = "2021"
publish = false

[dependencies]
crossbeam = "*"
stringzilla = "*"
governor = "*"
uuid = { version = "*", features = ["v4"] }
jiff = "*"
tokio = { version = "*", features = ["full"] }
tracing = "*"
tracing-subscriber = { version = "*", features = ["env-filter", "json"] }
tracing-appender = "*"
clap = { version = "*", features = ["derive", "env"] }
rustyline = "*"
parking_lot = "*"
