[package]
name = "zagreus"
version = "0.1.0"
edition = "2021"
publish = false

[dependencies]
url = "=2.5.8"
uuid = "=1.29.0"
argon2 = "=0.5.3"
rand_core = { version = "=0.6.4", features = ["getrandom"] }
rand = "=0.8.8"
oauth2 = { version = "=4.4.2", default-features = false }
validator = "=0.16.1"
serde = { version = "1", features = ["derive"] }
serde_json = "1"
chrono = "0.4"
thiserror = "1"
anyhow = "1"
actix-web = { version = "4", default-features = false, features = ["macros"] }
actix-cors = "*"
actix-files = "*"
sqlx = { version = "*", default-features = false, features = ["runtime-tokio", "postgres", "uuid", "chrono"] }
ory-hydra-client = "1"
tera = { version = "1", default-features = false }
clap = { version = "4", features = ["derive"] }
dotenv = "*"
env_logger = "*"
log = "0.4"
tokio = { version = "1", features = ["macros"] }
