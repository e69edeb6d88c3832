[package]
name = "grand_music_cup"
version = "0.1.0"
edition = "2021"
publish = false

[dependencies]
argon2 = "*"
axum = "0.8"
axum-extra = { version = "0.10", features = ["cookie"] }
base64 = "0.22"
chrono = "0.4"
clap = { version = "4", features = ["derive", "env"] }
dotenvy = "0.15"
http = "1"
jsonwebtoken = "9"
maud = { version = "0.27", features = ["axum"] }
rand = "*"
reqwest = { version = "0.12", default-features = false, features = ["json"] }
rspotify = { version = "0.15", features = ["cli"] }
serde = { version = "1", features = ["derive"] }
sqlx = { version = "0.8", default-features = false, features = ["sqlite", "runtime-tokio", "macros"] }
strum = { version = "0.27", features = ["derive"] }
thiserror = "2"
time = "0.3"
tokio = { version = "1", features = ["full"] }
url = "2"
