[package]
name = "finance_manager"
version = "0.1.0"
edition = "2021"
publish = false

[dependencies]
argon2 = { version = "=0.5.3", features = ["std"] }
bcrypt = "0.15"
bigdecimal = { version = "0.4", features = ["serde"] }
chrono = { version = "0.4", features = ["serde"] }
clap = "4"
diesel = { version = "2.1", features = ["postgres", "chrono", "numeric"] }
diesel_migrations = "2.1"
dotenv = "0.15"
env_logger = "0.10"
jsonwebtoken = "=9.3.1"
rocket = { version = "0.5", features = ["json"] }
rocket_cors = "0.6"
rocket_sync_db_pools = { version = "0.1", features = ["diesel_postgres_pool"] }
serde = { version = "1", features = ["derive"] }
serde_json = "=1.0.154"
thiserror = "1"
validator = { version = "=0.16.1", features = ["derive"] }
validator_derive = "0.16"
