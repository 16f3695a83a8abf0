[package]
name = "axum_xml_up"
version = "0.1.0"
edition = "2021"
publish = false

[dependencies]
quick-xml = { version = "*", features = ["serialize"] }
serde = "*"
axum-core = "*"
http = "*"
bytes = "*"
