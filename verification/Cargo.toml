[package]
name = "suparust"
version = "0.1.0"
edition = "2021"
publish = false

[dependencies]
chrono = "0.4"
log = "0.4"
mime = "0.3"
mime_guess = "2"
reqwest = { version = "0.12", features = ["json"] }
serde = { version = "1", features = ["derive"] }
serde_json = "1"
supabase-auth = "*"
thiserror = "*"
tokio = { version = "1", features = ["sync"] }
