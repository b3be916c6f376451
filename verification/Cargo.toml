[package]
name = "services_grouping"
version = "0.1.0"
edition = "2021"
publish = false

[dependencies]
uuid = { version = "1", features = ["v5", "serde"] }
chrono = { version = "0.4", features = ["serde"] }
rand = "0.8"
magic-crypt = "3"
serde = { version = "1", features = ["derive"] }
serde_json = "1"
actix-web = "4"
actix-session = { version = "0.9", features = ["cookie-session"] }
actix-cors = "0.7"
diesel = { version = "2", features = ["postgres", "r2d2", "uuid", "chrono"] }
reqwest = { version = "0.12", features = ["json"] }
calamine = "0.24"
clap = { version = "4", features = ["derive"] }
dotenv = "0.15"
log = "0.4"
pretty_env_logger = "0.5"
