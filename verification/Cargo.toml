[package]
name = "emacs"
version = "0.1.0"
edition = "2021"
publish = false

[dependencies]
darling = "0.9"
failure = "0.1"
failure_derive = "0.1"
libc = "0.2"
proc-macro2 = "0.4"
quote = "0.6"
syn = { version = "0.15", features = ["full"] }
