[package]
name = "adrodb"
version = "0.1.0"
edition = "2021"
publish = false

[dependencies]
rusqlite = "*"
actix-web = { version = "4", default-features = false, features = ["macros"] }
