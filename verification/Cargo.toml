[package]
name = "gtw_logic"
version = "0.1.0"
edition = "2021"
publish = false

[dependencies]
asr = "=0.0.1"
dlmalloc = { version = "=0.2.14", features = ["global"] }
