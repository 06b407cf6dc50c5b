[package]
name = "saladict"
version = "0.1.0"
edition = "2021"
publish = false

[dependencies]
lingua = { version = "=1.8.0", default-features = false, features = ["chinese", "english"] }
log = "0.4"
once_cell = "1"
selection = "1"
