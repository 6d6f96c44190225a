[package]
name = "auth_session"
version = "0.1.0"
edition = "2021"
publish = false

[dependencies]
actix-cors = "0.6"
actix-web = { version = "4", default-features = false, features = ["macros"] }
argon2 = "=0.5.3"
chrono = { version = "=0.4.45", features = ["serde"] }
deadpool = "0.9"
deadpool-ldap = "0.3.1"
dotenv = "0.15"
env_logger = "0.10"
futures = "0.3"
jsonwebtoken = "=9.3.1"
ldap3 = { version = "0.10", default-features = false }
redis = { version = "0.23", features = ["tokio-comp"] }
serde = { version = "1", features = ["derive"] }
serde_json = "=1.0.154"
sqlx = { version = "0.8", default-features = false, features = ["postgres", "runtime-tokio", "uuid", "chrono", "derive"] }
tokio = { version = "1", features = ["rt", "macros"] }
uuid = { version = "=1.29.0", features = ["v4", "serde"] }
