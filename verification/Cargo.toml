[package]
name = "picoforge"
version = "0.1.0"
edition = "2021"
publish = false

[dependencies]
hex = "*"
ring = "*"
rand = "*"
pcsc = "*"
hidapi = "*"
ctap-hid-fido2 = "*"

[dev-dependencies]
serde_cbor_2 = "*"
