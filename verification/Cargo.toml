[package]
name = "studycycle_api"
version = "0.1.0"
edition = "2021"
publish = false

[dependencies]
activitypub_federation = "*"
actix-web = "4"
anyhow = "1"
bcrypt = "*"
chrono = "0.4"
diesel-async = "*"
tracing = "0.1"
url = "2"
