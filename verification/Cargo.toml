[package]
name = "struct_component"
version = "0.1.0"
edition = "2021"
publish = false

[dependencies]
leptos = "0.8"
proc-macro2 = "=1.0.107"
quote = "=1.0.47"
send_wrapper = "0.6"
syn = { version = "=2.0.119", features = ["full"] }
