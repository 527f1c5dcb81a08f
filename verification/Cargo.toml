[package]
name = "jwt_middleware"
version = "0.1.0"
edition = "2021"
publish = false

[dependencies]
actix-web = "4"
futures = "0.3"
jsonwebtoken = "9"
serde = "1"
