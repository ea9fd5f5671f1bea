[package]
name = "stackable_config"
version = "0.1.0"
edition = "2021"
publish = false

[dependencies]
bstr = "0.2"
clap = { version = "2.33", default-features = false }
proc-macro2 = "1"
quote = "1"
slog = "2"
sloggers = "1"
syn = { version = "1", features = ["full"] }
