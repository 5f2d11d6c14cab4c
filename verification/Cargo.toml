[package]
name = "discogs_load"
version = "0.1.0"
edition = "2021"
publish = false

[dependencies]
anyhow = "=1.0.104"
encoding_rs_io = "=0.1.8"
env_logger = "=0.11.11"
flate2 = "=1.1.10"
indicatif = "=0.18.6"
log = "=0.4.34"
postgres = "=0.19.14"
quick-xml = "=0.37.5"
structopt = "=0.3.26"
