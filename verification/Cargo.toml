[package]
name = "katana_db"
version = "0.1.0"
edition = "2021"
publish = false

[dependencies]
anyhow = "=1.0.104"
async-trait = "=0.1.92"
auto_impl = "=1.4.0"
cainome = "=0.10.1"
libmdbx = "=0.9.0"
page_size = "*"

[dev-dependencies]
tempfile = "=3.27.0"
