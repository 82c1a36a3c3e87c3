[package]
name = "keeb_lighting"
version = "0.1.0"
edition = "2021"
publish = false

[dependencies]
rand = "=0.8.8"
hidapi = { version = "=2.6.7", default-features = false, features = ["linux-native-basic-udev"] }
