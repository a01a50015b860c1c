[package]
name = "iced_dialog"
version = "0.1.0"
edition = "2021"
publish = false

[dependencies]
iced_core = "0.13"
iced_widget = "0.13"
