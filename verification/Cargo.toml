[package]
name = "multisig"
version = "0.1.0"
edition = "2021"
publish = false

[dependencies]
eframe = "0.15"
js-sys = "0.3"
wasm-bindgen = "0.2"
wasm-bindgen-futures = "0.4"
web-sys = { version = "0.3", features = ["AudioContext", "AudioContextState", "AudioDestinationNode", "AudioNode", "AudioWorklet", "AudioWorkletGlobalScope", "AudioWorkletNode", "AudioWorkletNodeOptions", "BaseAudioContext", "Blob", "BlobPropertyBag", "MessageEvent", "MessagePort", "Url", "Worklet"] }

[dev-dependencies]
bincode = "1"
