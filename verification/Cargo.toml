[package]
name = "xenstore"
version = "0.1.0"
edition = "2021"
publish = false

[dependencies]
async-executor = "1"
async-io = "2"
flume = "0.11"
futures = "0.3"
log = "0.4"
tokio = { version = "1", features = ["io-util", "net", "rt"] }
tokio-util = { version = "0.7", features = ["compat"] }
uuid = { version = "1", features = ["v4"] }
windows = { version = "0.58", features = ["Win32_Foundation", "Win32_System_Threading"] }
