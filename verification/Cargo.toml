[package]
name = "kanban"
version = "0.1.0"
edition = "2021"
publish = false

[dependencies]
rocket = { version = "0.5", features = ["json"] }
rusqlite = "0.31"
r2d2 = "0.8"
r2d2_sqlite = "0.24"
bcrypt = "0.15"
rand = "0.8"
sha2 = "0.10"
