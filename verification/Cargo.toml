[package]
name = "url_shortener"
version = "0.1.0"
edition = "2021"
publish = false

[dependencies]
uuid = { version = "1", features = ["v4"] }
actix-web = { version = "4", default-features = false, features = ["macros"] }
sea-orm = { version = "0.12", default-features = false, features = ["macros", "with-chrono"] }
sea-orm-migration = { version = "0.12", default-features = false }
serde = { version = "1", features = ["derive"] }
dotenv = "0.15"
env_logger = "0.10"
log = "0.4"
async-trait = "0.1"
