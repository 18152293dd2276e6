[package]
name = "route_metrics"
version = "0.1.0"
edition = "2021"
publish = false

[dependencies]
http = "*"
http-body = "*"
http-body-util = "*"
bytes = "*"
prost = "*"
serde = "*"
serde_json = "*"
tower = "*"
