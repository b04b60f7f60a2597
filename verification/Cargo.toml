[package]
name = "todo_store"
version = "0.1.0"
edition = "2021"
publish = false

[dependencies]
surrealdb = { version = "=1.3.1", default-features = false, features = ["kv-mem"] }
tokio = { version = "1", default-features = false, features = ["rt"] }
