[package]
name = "booking_store"
version = "0.1.0"
edition = "2021"
publish = false

[dependencies]
js-sys = "0.3"
yew = "0.18"
