[package]
name = "hid_clock_sync"
version = "0.1.0"
edition = "2021"
publish = false

[dependencies]
chrono = "0.4"
hidapi = { version = "2", default-features = false, features = ["linux-native-basic-udev"] }
