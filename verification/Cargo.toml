[package]
name = "aide_docs"
version = "0.1.0"
edition = "2021"
publish = false

[dependencies]
aide = { version = "*", features = ["axum"] }
axum = "*"
syn = { version = "*", features = ["full"] }
quote = "*"
proc-macro2 = "*"
paste = "*"
