[package]
name = "akimo_runtime"
version = "0.1.0"
edition = "2021"
publish = false

[dependencies]
hashbrown = "*"
ulid = "*"
image = { version = "*", default-features = false }
log = "*"
fern = "*"
humantime = "*"
