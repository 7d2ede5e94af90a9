[package]
name = "zen_rpc"
version = "0.1.0"
edition = "2021"
publish = false

[dependencies]
ab_glyph = "0.2"
chrono = "0.4"
discord-rich-presence = "0.2"
image = { version = "0.25", default-features = false, features = ["png", "jpeg", "webp"] }
imageproc = { version = "0.24", default-features = false }
rustfft = "6"
serde = { version = "1", features = ["derive"] }
serde_json = "1"
tiny_http = "0.12"
ureq = { version = "2", features = ["json"] }
urlencoding = "2"
