[package]
name = "update_cte"
version = "0.1.0"
edition = "2021"
publish = false

[dependencies]
diesel = { version = "=2.3.14", features = ["postgres", "uuid"] }
uuid = { version = "=1.27.0", features = ["v4"] }
