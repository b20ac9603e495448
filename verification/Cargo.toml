[package]
name = "todo_list"
version = "0.1.0"
edition = "2021"
publish = false

[dependencies]
chrono = "=0.4.45"
rusqlite = { version = "=0.40.2", features = ["chrono", "fallible_uint"] }
inquire = { version = "=0.9.4", features = ["date"] }
