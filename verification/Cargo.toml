[package]
name = "gamemode_status"
version = "0.1.0"
edition = "2021"
publish = false

[dependencies]
sysinfo = "0.31"
zbus = "4"
futures-util = "0.3"
