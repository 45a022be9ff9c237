[package]
name = "reprl"
version = "0.1.0"
edition = "2021"
publish = false

[dependencies]
libc = "=0.2.191"
memmap = "=0.7.0"
nova_vm = "=1.0.0"
icu_calendar = "=2.1.1"
