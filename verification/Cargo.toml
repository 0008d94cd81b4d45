[package]
name = "storage_gateway"
version = "0.1.0"
edition = "2021"
publish = false

[dependencies]
actix-cors = "0.5"
actix-files = "0.5"
actix-multipart = "0.3"
actix-web = "3"
alcoholic_jwt = "1.0"
base64 = "0.13"
derive_more = "0.99"
dotenv = "0.15"
futures-util = "0.3"
reqwest = { version = "0.10", features = ["blocking", "json"] }
serde = { version = "1", features = ["derive"] }
serde_json = "1"
