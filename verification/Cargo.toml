[package]
name = "microbin"
version = "0.1.0"
edition = "2021"
publish = false

[dependencies]
chrono = "=0.4.45"
html-escape = "=0.2.15"
actix-web = { version = "=4.18.1", default-features = false, features = ["macros", "cookies"] }
actix-multipart = "=0.6.2"
actix-web-httpauth = "=0.8.3"
futures = "=0.3.34"
rand = "=0.8.8"
serde = { version = "=1.0.229", features = ["derive"] }
serde_json = "1"
bytesize = { version = "=1.3.3", features = ["serde"] }
