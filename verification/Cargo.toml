[package]
name = "craiyon-bot"
version = "0.1.0"
edition = "2021"
publish = false

[dependencies]
charname = "=1.18.0"
url = "=2.5.8"
rand = "=0.9.5"
counter = "=0.7.1"
base64 = "=0.22.1"
log = "=0.4.35"
colored = "=3.1.1"
time = { version = "=0.3.55", features = ["macros", "formatting"] }
dotenvy = "=0.15.7"
serde_json = "=1.0.154"
image = { version = "=0.25.10", default-features = false, features = ["jpeg", "png", "webp"] }

[dev-dependencies]
