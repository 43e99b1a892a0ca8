[package]
name = "robocar"
version = "0.1.0"
edition = "2021"
publish = false

[dependencies]
libc = "=0.2.190"
linux-embedded-hal = "=0.5.0"
log = "=0.4.34"
mfrc522 = "=0.8.0"
nix = { version = "=0.31.3", features = ["signal"] }
rust_gpiozero = "=0.2.1"
simplelog = "=0.12.2"
