[package]
name = "omni_app"
version = "0.1.0"
edition = "2021"
publish = false

[dependencies]
dark-light = "2"
iced = { version = "*", default-features = false, features = ["tokio"] }
image = { version = "0.25", default-features = false, features = ["jpeg", "png"] }
native-dialog = "0.9"
rfd = { version = "0.15", default-features = false, features = ["xdg-portal", "tokio"] }
tokio = { version = "1", features = ["rt"] }
