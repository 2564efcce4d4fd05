[package]
name = "marlin"
version = "0.1.0"
edition = "2021"
publish = false

[dependencies]
boxcar = "0.2"
camino = "1"
dashmap = "6"
file-guard = "0.2"
glob = "0.3"
libloading = "0.8"
log = "0.4"
owo-colors = "4"
snafu = "0.8"
toml = "0.8"
