[package]
name = "cube3d"
version = "0.1.0"
edition = "2021"
publish = false

[dependencies]
druid = "=0.8.3"
csgrs = { version = "=0.15.2", default-features = false, features = ["f64"] }
