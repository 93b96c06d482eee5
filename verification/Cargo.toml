[package]
name = "syscall_load"
version = "0.1.0"
edition = "2021"
publish = false

[dependencies]
ckb-vm = { version = "=0.20.1", features = ["asm"] }
