[package]
name = "bt_player"
version = "0.1.0"
edition = "2021"
publish = false

[dependencies]
bluer = { version = "*", features = ["bluetoothd"] }
tokio = { version = "*", features = ["full"] }
tokio-stream = "*"
zbus = "*"
zvariant = "*"
