[package]
name = "pago_backend"
version = "0.1.0"
edition = "2021"
publish = false

[dependencies]
convert_case = "*"
uuid = { version = "1", features = ["v4"] }
actix-web = { version = "4", default-features = false, features = ["macros", "cookies"] }
actix-cors = "*"
actix-web-httpauth = "*"
alcoholic_jwt = "*"
aws-config = "*"
aws-sdk-cognitoidentityprovider = "*"
aws-sdk-s3 = "*"
chrono = { version = "*", features = ["serde"] }
csv = "*"
diesel = { version = "2", features = ["postgres", "r2d2", "chrono", "serde_json"] }
diesel_migrations = "2"
dotenv = "*"
env_logger = "*"
log = "*"
reqwest = { version = "*", default-features = false, features = ["json"] }
serde = { version = "1", features = ["derive"] }
serde_json = "1"
statrs = "*"
tokio = { version = "1", features = ["macros", "rt-multi-thread"] }
