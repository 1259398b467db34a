[package]
name = "iced_baseview"
version = "0.1.0"
edition = "2021"
publish = false

[dependencies]
baseview = "=0.4.1"
iced_core = "=0.12.3"
iced_graphics = "=0.12.1"
keyboard-types = "=0.8.3"
thiserror = "=1.0.69"
