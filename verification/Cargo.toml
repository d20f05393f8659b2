[package]
name = "chat_relay"
version = "0.1.0"
edition = "2021"
publish = false

[dependencies]
chrono = "=0.4.45"
serde = { version = "=1.0.229", features = ["derive"] }
tokio = { version = "=1.53.2", features = ["full"] }
axum = { version = "=0.8.9", features = ["ws"] }
axum-server = "=0.8.0"
futures = "=0.3.34"
dotenvy = "=0.15.7"
rand = "=0.8.8"
faker_rand = "=0.1.1"
async-openai = { version = "=0.42.1", features = ["chat-completion"] }
surrealdb = { version = "=3.3.1", default-features = false, features = ["protocol-ws"] }
