[package]
name = "machpatch"
version = "0.1.0"
edition = "2021"
publish = false

[dependencies]
apple-bundles = "*"
apple-codesign = { version = "*", default-features = false }
clap = { version = "*", default-features = false, features = ["derive", "std", "help", "usage"] }
tracing = "*"
tracing-subscriber = { version = "*", default-features = false, features = ["fmt"] }
