[package]
name = "waveshare_nfc"
version = "0.1.0"
edition = "2021"
publish = false

[dependencies]
ufmt = { version = "=0.2.0", features = ["std"] }
flipperzero = { version = "=0.11.0", features = ["alloc"] }
flipperzero-alloc = "=0.11.0"
flipperzero-rt = "=0.11.0"
flipperzero-sys = "=0.11.0"
