[package]
name = "brainwash_gui"
version = "0.1.0"
edition = "2021"
publish = false

[dependencies]
rtrb = "=0.4.1"
