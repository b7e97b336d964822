[package]
name = "dsf_engine"
version = "0.1.0"
edition = "2021"
publish = false

[dependencies]
byteorder = "=1.5.0"
dsf-core = "=0.2.0"
log = "=0.4.34"
sled = "=0.34.7"
sodiumoxide = { version = "=0.2.6", default-features = false }
thiserror = "=1.0.69"
