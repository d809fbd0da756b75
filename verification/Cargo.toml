[package]
name = "tonic-thiserror-impl"
version = "0.1.0"
edition = "2021"
publish = false

[dependencies]
proc-macro2 = { version = "=1.0.107", default-features = false }
quote = { version = "=1.0.47", default-features = false }
syn = { version = "=1.0.109", default-features = false, features = ["clone-impls", "derive", "parsing", "printing"] }
thiserror = "=1.0.69"
tonic = { version = "=0.14.6", default-features = false }
