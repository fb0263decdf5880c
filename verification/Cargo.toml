[package]
name = "oblivious_state_machine"
version = "0.1.0"
edition = "2021"
publish = false

[dependencies]
downcast-rs = "1"
futures = "0.3"
log = "0.4"
thiserror = "1"
tokio = { version = "1", features = ["rt", "sync", "time"] }
