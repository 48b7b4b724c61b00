[package]
name = "cargo_registry_readme"
version = "0.1.0"
edition = "2021"
publish = false

[dependencies]
anyhow = "1"
cargo-registry-markdown = "*"
clap = "3"
console = "0.15"
ctrlc = "3"
hotwatch = "0.4"
opener = "0.5"
rustc-serialize = "0.3"
sha1 = "0.6"
tiny_http = "0.12"
