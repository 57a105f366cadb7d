[package]
name = "authcore"
version = "0.1.0"
edition = "2021"
publish = false

[dependencies]
base64 = "=0.23.1"
bcrypt = "=0.19.3"
data-encoding = "=2.11.1"
hex = "=0.4.3"
jsonwebtoken = { version = "=11.1.0", features = ["rust_crypto"] }
qrcode-generator = "=6.1.2"
rand = "=0.10.3"
serde_json = "=1.0.151"
sha2 = "=0.11.0"
totp-rs = "=6.0.0"
urlencoding = "=2.1.3"
uuid = { version = "=1.27.0", features = ["v4"] }
