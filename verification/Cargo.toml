[package]
name = "zumo_core"
version = "0.1.0"
edition = "2021"
publish = false

[dependencies]
micromath = "*"
embedded-hal = "=0.2.7"
void = "*"
