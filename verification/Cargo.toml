[package]
name = "midas"
version = "0.3.0"
edition = "2021"
publish = false

[dependencies]
crossbeam-queue = "0.3"
pc-keyboard = "0.5"
