[package]
name = "apache_avro"
version = "0.1.0"
edition = "2021"
publish = false

[dependencies]
serde = "1"
uuid = "1"
