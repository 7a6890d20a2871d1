[package]
name = "mesher"
version = "0.1.0"
edition = "2021"
publish = false

[dependencies]
azalea = { version = "0.14.0", default-features = false }
crossbeam = "=0.8.5"
glam = "=0.34.2"
parking_lot = "=0.12.5"
