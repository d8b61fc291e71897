[package]
name = "touchppp"
version = "0.1.0"
edition = "2021"
publish = false

[dependencies]
tokio = { version = "*", default-features = false, features = ["net", "io-util", "rt-multi-thread", "macros", "sync", "process", "time"] }
futures = "*"
getopts = "*"
