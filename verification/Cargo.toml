[package]
name = "game_task_widget"
version = "0.1.0"
edition = "2021"
publish = false

[dependencies]
notify = "*"
rfd = "*"
serde = { version = "1", features = ["derive"] }
tokio = { version = "1", features = ["fs"] }
