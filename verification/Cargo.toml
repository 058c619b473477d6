[package]
name = "rs1541"
version = "0.1.0"
edition = "2021"
publish = false

[dependencies]
libc = "0.2"
log = "0.4"
parking_lot = "0.12"
regex = "1"
serde = { version = "1", features = ["derive"] }
thiserror = "1"
xum1541 = "*"
