[package]
name = "todo_list"
version = "0.1.0"
edition = "2021"
publish = false

[dependencies]
ncurses = "=5.99.0"
serde = { version = "=1.0.229", features = ["derive"] }
serde_json = "=1.0.154"
