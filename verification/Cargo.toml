[package]
name = "bq24196"
version = "0.1.0"
edition = "2021"
publish = false

[dependencies]
embedded-hal = "0.2"
tock-registers = "*"
