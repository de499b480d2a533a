[package]
name = "twitch_oauth2"
version = "0.1.0"
edition = "2021"
publish = false

[dependencies]
rand = "*"
base64 = "*"
http = "*"
url = "*"
serde = "*"
serde_derive = "*"
serde_json = "*"
async-trait = "*"
