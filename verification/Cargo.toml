[package]
name = "trailbase"
version = "0.1.0"
edition = "2021"
publish = false

[dependencies]
sqlite3-parser = "=0.13.0"
fallible-iterator = "=0.3.0"
regex = "=1.13.1"
regex-syntax = "=0.8.11"
base64 = "=0.22.1"
rand = "=0.9.5"
form_urlencoded = "=1.2.2"
url = "=2.5.8"
uuid = { version = "=1.29.0", features = ["v4", "v7"] }
minijinja = "=2.24.0"
indexmap = "=2.14.2"
serde = { version = "=1.0.229", features = ["derive"] }
serde-value = "=0.7.0"
serde_json = "=1.0.154"
tracing = "=0.1.44"
sqlformat = "=0.5.0"
maxminddb = "=0.32.0"
validator = "*"
jsonschema = { version = "*", default-features = false }
