[package]
name = "rustdesk_ohos"
version = "0.1.0"
edition = "2021"
publish = false

[dependencies]
ringbuf = "0.3"
uuid = "1"
tokio = { version = "1", features = ["net"] }
log = "0.4"
