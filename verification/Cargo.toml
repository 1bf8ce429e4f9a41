[package]
name = "sendspin_vst3"
version = "0.5.0"
edition = "2021"
publish = false

[dependencies]
dirs = "=6.0.0"
# The toolkit of nih_plug_egui's windows, which that crate does not re-export.
egui = { version = "=0.34.3", default-features = false }
mdns-sd = "=0.13.11"
nih_plug_egui = "=0.1.2"
parking_lot = "=0.12.5"
rtrb = "=0.3.6"
sendspin = "=0.1.2"
tokio = { version = "=1.54.1", features = ["rt", "sync", "time", "macros", "net"] }
url = "=2.5.8"
uuid = { version = "=1.29.0", features = ["v4"] }
