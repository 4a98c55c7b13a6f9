[package]
name = "tas_rust"
version = "0.1.0"
edition = "2021"
publish = false

[dependencies]
anyhow = "=1.0.104"
serde = { version = "=1.0.229", features = ["derive"] }
serde_json = "=1.0.154"
tokio = { version = "=1.54.1", features = ["full"] }
rust_socketio = "=0.4.4"
webrtc = "=0.5.1"
gstreamer = "=0.18.8"
gstreamer-app = "=0.18.7"

# Not used directly: these hold webrtc's own dependencies to the releases that build with it.
interceptor = "=0.8.0"
rtcp = "=0.7.0"
rtp = "=0.6.7"
stun = "=0.4.3"
turn = "=0.6.0"
webrtc-mdns = "=0.5.0"
webrtc-srtp = "=0.9.0"
x25519-dalek = { version = "=2.0.1", features = ["static_secrets"] }
