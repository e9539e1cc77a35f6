[package]
name = "colorguard"
version = "0.1.0"
edition = "2021"
publish = false

[dependencies]
regalloc2 = "0.4"
wasmtime = { version = "2", default-features = false, features = ["cranelift", "pooling-allocator"] }
