[package]
name = "ferr_os"
version = "0.0.1"
edition = "2021"
publish = false

[dependencies]
volatile = "=0.2.7"
spin = "=0.5.2"
lazy_static = { version = "=1.4.0", features = ["spin_no_std"] }
cpuio = "=0.3.0"
