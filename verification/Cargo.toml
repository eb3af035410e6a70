[package]
name = "lunamate_ui"
version = "0.1.0"
edition = "2021"
publish = false

[dependencies]
async-channel = "2"
futures = "0.3"
log = "0.4"
parking_lot = "0.12"
rust-i18n = "3"
