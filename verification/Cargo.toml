[package]
name = "locations"
version = "0.1.0"
edition = "2021"
publish = false

[dependencies]
directories = "*"
owo-colors = "*"
serde = "*"
serde_ini = "*"
serde_json = "*"
serde_yaml = "*"
