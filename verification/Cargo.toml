[package]
name = "kernel_bringup"
version = "0.1.0"
edition = "2021"
publish = false

[dependencies]
aarch64-cpu = "=11.2.0"
tock-registers = "=0.10.1"
spin = "=0.12.3"
bit_field = "=0.10.3"
ascii = { version = "*", default-features = false }
embedded-graphics = "*"
