[package]
name = "wisdom"
version = "0.1.0"
edition = "2021"
publish = false

[dependencies]
md5 = "*"
rand = "*"
actix-web = { version = "*", default-features = false, features = ["macros"] }
derive_more = { version = "*", features = ["display", "error"] }
env_logger = "*"
futures = "*"
reqwest = { version = "*", default-features = false, features = ["json"] }
serde = { version = "*", features = ["derive"] }
serde_json = "*"
thiserror = "*"
tokio = { version = "*", features = ["rt", "rt-multi-thread", "macros"] }
