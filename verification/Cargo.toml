[package]
name = "lomatia"
version = "0.1.0"
edition = "2021"
publish = false

[dependencies]
serde_json = "*"
bcrypt = "*"
uuid = { version = "*", features = ["v4"] }
qstring = "*"
hyper = { version = "0.14", features = ["full"] }
tokio = { version = "1", features = ["rt-multi-thread", "macros", "net", "time"] }
tokio-postgres = "*"
bb8 = "*"
bb8-postgres = "*"
clap = "*"
