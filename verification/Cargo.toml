[package]
name = "kernel"
version = "0.1.0"
edition = "2021"
publish = false

[dependencies]
embedded-graphics = "=0.8.2"
profont = "=0.7.0"
log = "=0.4.35"
x86_64 = { version = "=0.15.5", default-features = false, features = ["instructions"] }
pc-keyboard = "=0.7.0"
spin = "=0.9.9"
bootloader_api = "=0.11.17"
uart_16550 = "=0.3.2"
uefi = "0.24"
ovmf-prebuilt = "0.1.0-alpha.1"
