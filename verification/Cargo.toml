[package]
name = "thermorawfilereader"
version = "0.1.0"
edition = "2021"
publish = false

[dependencies]
sha1 = "=0.11.0"
base16ct = { version = "=1.0.0", features = ["alloc"] }
netcorehost = { version = "=0.22.0", default-features = false, features = ["net8_0"] }
tempfile = "=3.27.0"
