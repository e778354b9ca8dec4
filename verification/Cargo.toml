[package]
name = "label_state"
version = "0.1.0"
edition = "2021"
publish = false

[dependencies]
glib = "0.18"
pango = "0.18"
gtk4 = { version = "0.7", features = ["v4_10"] }
