[package]
name = "sysbus"
version = "0.1.0"
edition = "2021"
publish = false

[dependencies]
anyhow = "1.0"
log = "0.4"
thiserror = "1.0"
vmm-sys-util = "0.11"
