[package]
name = "orbfont"
version = "0.1.0"
edition = "2021"
publish = false

[dependencies]
rusttype = "0.9"
font-loader = "0.11"
orbclient = { version = "0.3", default-features = false }
