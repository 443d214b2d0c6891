[package]
name = "identity_graph"
version = "0.1.0"
edition = "2021"
publish = false

[dependencies]
handlebars = "=6.4.4"
serde_json = "=1.0.154"
rust-argon2 = { version = "=3.0.0", default-features = false }
nanoid = "=0.5.0"
serde = { version = "=1.0.229", features = ["derive"] }
dgraph = "=0.4.0"
once_cell = "=1.21.4"
reqwest = { version = "=0.13.5", default-features = false }
actix-web = { version = "=4.18.1", default-features = false, features = ["macros"] }
csrf = "=0.5.0"
