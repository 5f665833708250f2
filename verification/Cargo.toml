[package]
name = "hub75_pico"
version = "0.1.0"
edition = "2021"
publish = false

[dependencies]
fixed = "=1.29.0"
rand = "=0.9.5"
libm = "=0.2.16"
embedded-graphics = "=0.8.2"
serde = { version = "=1.0.229", default-features = false, features = ["derive"] }
postcard = { version = "=1.1.3", default-features = false }
embassy-rp = { version = "=0.10.0", features = ["rp2040", "time-driver", "critical-section-impl", "unstable-pac"] }
embassy-executor = { version = "=0.9.1", features = ["arch-std", "executor-thread"] }
embassy-time = "=0.5.1"
static_cell = "=2.1.1"
