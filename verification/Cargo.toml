[package]
name = "niri_sweaters"
version = "0.1.0"
edition = "2021"
publish = false

[dependencies]
clap = { version = "4.5", features = ["derive"] }
clap_complete = "4.5"
knuffel = "3.2.0"
