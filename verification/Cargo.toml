[package]
name = "watchmate"
version = "0.1.0"
edition = "2021"
publish = false

[dependencies]
bluer = { version = "0.15", features = ["bluetoothd"] }
futures = "0.3"
log = "0.4"
relm4 = { version = "0.5", features = ["libadwaita"] }
