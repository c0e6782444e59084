[package]
name = "botmark"
version = "0.1.1"
edition = "2021"
publish = false

[dependencies]
crossbeam = "=0.8.5"
rand = "=0.9.5"
uuid = "=1.29.0"
md-5 = "=0.10.6"
urlencoding = "2.1"
tokio = { version = "=1.54.1", features = ["net", "io-util", "rt-multi-thread", "macros", "signal", "time", "sync"] }
tiny_http = "=0.12.0"
clap = { version = "=4.6.7", features = ["derive"] }
log = "=0.4.35"
simple_logger = "=5.2.0"
