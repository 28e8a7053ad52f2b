[package]
name = "batl"
version = "0.2.2"
edition = "2021"
publish = false

[dependencies]
clap = { version = "4", features = ["derive"] }
colored = "2"
console = "0.15"
dialoguer = "0.10"
dirs = "5"
envfile = "0.2"
git2 = { version = "0.18", default-features = false }
ignore = "0.4"
pathdiff = "0.2"
regex = "1"
semver = "1"
tar = "0.4"
thiserror = "1"
toml = "0.8"
ureq = "2"
whoami = "1"
