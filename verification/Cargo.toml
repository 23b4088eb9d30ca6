[package]
name = "chessagon"
version = "0.1.0"
edition = "2021"
publish = false

[dependencies]
rand = { version = "0.8", features = ["small_rng"] }
web-time = { version = "1", features = ["serde"] }
serde = { version = "1", features = ["derive"] }
serde_bare = "*"
serde_json = "1"
worker = "*"
wasm-bindgen = "0.2"
wasm-bindgen-futures = "0.4"
js-sys = "0.3"
futures = "0.3"
futures-channel = "0.3"
serde-wasm-bindgen = "*"
web-sys = { version = "0.3", features = ["Event", "Headers", "MessageEvent", "Request", "RequestInit", "RequestMode", "Response", "RtcConfiguration", "RtcDataChannel", "RtcDataChannelEvent", "RtcDataChannelInit", "RtcDataChannelType", "RtcIceCandidate", "RtcIceCandidateInit", "RtcPeerConnection", "RtcPeerConnectionIceEvent", "RtcSdpType", "RtcSessionDescriptionInit", "Window"] }
