[package]
name = "lykrysh"
version = "0.1.0"
edition = "2021"
publish = false

[dependencies]
actix = "0.7"
actix-web = "0.7"
askama = "0.8"
chrono = { version = "0.4", features = ["serde"] }
diesel = { version = "1.4", features = ["postgres", "r2d2", "chrono"] }
dotenv = "0.13"
env_logger = "0.6"
futures = "0.1"
log = "0.4"
num_cpus = "1"
serde = "1"
serde_derive = "1"
serde_json = "1"
