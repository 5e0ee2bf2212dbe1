[package]
name = "board_drivers"
version = "0.1.0"
edition = "2021"
publish = false

[dependencies]
embedded-hal = "=1.0.0"
embedded-hal-async = "=1.0.0"
embedded-graphics-core = "=0.4.1"
embedded-graphics = "=0.8.2"
embedded-qr = "=0.2.0"
log = "=0.4.35"
