[package]
name = "reflect"
version = "0.1.0"
edition = "2021"
publish = false

[dependencies]
chrono = "0.4"
fern = "0.6"
log = "0.4"
r2d2_redis = "0.13"
ron = "0.5"
serde = { version = "1", features = ["derive"] }
serenity = "0.8"
typemap = "0.3"
