[package]
name = "tor-browser-builder"
version = "0.7.0"
edition = "2021"
publish = false

[dependencies]
anyhow = "1"
directories = "5"
egui = "0.31"
egui_extras = { version = "0.31", default-features = false, features = ["svg"] }
hex = "0.4"
reqwest = { version = "0.12", default-features = false, features = ["blocking", "json", "rustls-tls"] }
sequoia-openpgp = { version = "1", default-features = false, features = ["crypto-rust", "allow-experimental-crypto", "allow-variable-time-crypto"] }
serde_json = "1"
sha2 = "0.10"
