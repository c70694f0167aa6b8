[package]
name = "az"
version = "0.1.0"
edition = "2021"
publish = false

[dependencies]
chrono = { version = "=0.4.45", default-features = false, features = ["std"] }
clap = { version = "=4.6.7", features = ["derive"] }
cursive = "=0.21.1"
git2 = { version = "=0.21.0", default-features = false }
gpgme = "=0.11.0"
prettytable-rs = { version = "=0.10.0", default-features = false }
