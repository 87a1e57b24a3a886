[package]
name = "ankaios_agent"
version = "0.1.0"
edition = "2021"
publish = false

[dependencies]
tokio = { version = "1", features = ["rt", "time", "sync"] }
log = "0.4"
async-trait = "0.1"
