[package]
name = "blog_server"
version = "0.1.0"
edition = "2021"
publish = false

[dependencies]
pwhash = "1"
rand = "0.8"
chrono = "0.4"
serde = { version = "1", features = ["derive"] }
serde_json = "1"
jsonwebtoken = "8"
dotenv = "0.15"
actix-web = { version = "4", default-features = false, features = ["macros", "cookies"] }
futures-util = "0.3"
surrealdb = { version = "=1.0.0-beta.8", default-features = false, features = ["kv-mem"] }
