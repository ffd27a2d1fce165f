[package]
name = "iox_object_store"
version = "0.1.0"
edition = "2021"
publish = false

[dependencies]
bytes = "*"
futures = "*"
object_store = "*"
