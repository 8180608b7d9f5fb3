[package]
name = "avatar_render"
version = "0.1.0"
edition = "2021"
publish = false

[dependencies]
png = "*"
base64 = "*"
image = { version = "*", default-features = false, features = ["png"] }
macroquad = "*"
tobj = "*"
rouille = { version = "*", default-features = false }
sqlx = { version = "*", default-features = false, features = ["mysql", "runtime-tokio", "derive"] }
tokio = { version = "*", features = ["rt-multi-thread"] }
serde = { version = "*", features = ["derive"] }
serde_json = "*"
dotenv = "*"
chrono = "*"
memory-stats = "*"
