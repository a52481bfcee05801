[package]
name = "artnet_client"
version = "0.1.0"
edition = "2021"
publish = false

[dependencies]
tiny-artnet = "=0.1.3"
bytes = "=1.12.1"
async-channel = "=2.5.0"
edge-net = "=0.16.0"
embassy-futures = "=0.1.2"
thiserror = "=2.0.21"
tracing = "=0.1.44"
esp-radio = { version = "*", features = ["esp32c6", "ieee802154"] }
ieee802154 = "*"
