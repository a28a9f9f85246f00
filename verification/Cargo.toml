[package]
name = "kc_osm"
version = "0.1.0"
edition = "2021"
publish = false

[dependencies]
uuid = "=1.29.0"
heck = "=0.5.0"
windows = { version = "=0.58.0", features = ["Win32_System_Com", "Win32_Foundation", "implement"] }
syn = { version = "=2.0.119", features = ["full"] }
quote = "=1.0.47"
proc-macro2 = "=1.0.107"
