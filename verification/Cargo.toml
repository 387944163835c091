[package]
name = "wlan_rsn"
version = "0.1.0"
edition = "2021"
publish = false

[dependencies]
bytes = "*"
hmac = "*"
sha1 = "*"
rand = "*"
