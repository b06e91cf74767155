[package]
name = "advisory_filter"
version = "0.1.0"
edition = "2021"
publish = false

[dependencies]
binfarce = "=0.2.2"
cargo-edit = "=0.13.0"
cargo-lock = "=11.1.0"
gix = { version = "=0.75.0", default-features = false }
once_cell = "=1.21.4"
platforms = "=3.12.0"
semver = "=1.0.28"
tame-index = "=0.27.1"
thiserror = "=2.0.21"
toml = "=1.1.8"
