[package]
name = "moss_core"
version = "0.1.0"
edition = "2021"
publish = false

[dependencies]
chrono = "*"
dirs = "*"
fs-err = "*"
jwalk = "*"
log = "*"
nix = { version = "*", features = ["user"] }
rapidfuzz = "*"
rayon = "*"
regex = "*"
thiserror = "*"
