[package]
name = "inference_scheduler"
version = "0.1.0"
edition = "2021"
publish = false

[dependencies]
llm = "0.1"
flume = "0.10"
bincode = "1"
zstd = "0.12"
rand = "0.8"
log = "0.4"
