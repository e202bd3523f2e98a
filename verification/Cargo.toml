[package]
name = "dc_api_core"
version = "0.1.0"
edition = "2021"
publish = false

[dependencies]
anyhow = "=1.0.104"
async-trait = "=0.1.92"
base64 = "=0.22.1"
ciborium = "=0.2.2"
coset = "=0.3.8"
getrandom = "=0.3.4"
hpke = "=0.13.0"
http = "=1.5.0"
isomdl = "=0.2.0"
js-sys = "=0.3.106"
openid4vp = "=0.1.0"
p256 = "=0.13.2"
serde = { version = "=1.0.229", features = ["derive"] }
serde-wasm-bindgen = "=0.6.5"
serde_json = "=1.0.154"
sha2 = "=0.10.9"
tracing = "=0.1.44"
url = "=2.5.8"
uuid = { version = "=1.29.0", features = ["v4"] }
wasm-bindgen = "=0.2.129"
wasm-bindgen-futures = "=0.4.79"
x509-cert = "=0.2.5"
