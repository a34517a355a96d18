[package]
name = "dji_log_parser"
version = "0.1.0"
edition = "2021"
publish = false

[dependencies]
base64 = "=0.22.1"
crc64 = "=2.0.0"
aes = "=0.8.4"
cbc = { version = "=0.1.2", features = ["block-padding", "alloc"] }
chrono = { version = "=0.4.45", features = ["serde"] }
serde = { version = "=1.0.229", features = ["derive"] }
serde_json = "=1.0.154"
ureq = { version = "=2.12.1", features = ["json"] }
clap = { version = "=4.6.7", features = ["derive"] }
csv = "=1.4.0"
geojson = "=1.0.0"
kml = "=0.15.0"
kamadak-exif = "=0.6.1"
img-parts = "=0.4.2"
