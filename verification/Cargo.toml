[package]
name = "bliss"
version = "0.1.0"
edition = "2021"
publish = false

[dependencies]
bytes = "1"
chrono = { version = "0.4", features = ["serde"] }
clap = { version = "4", features = ["derive"] }
home = "0.5"
image = { version = "0.24", default-features = false, features = ["png", "jpeg", "gif", "webp"] }
lemmy_api_common = "0.18"
log = "0.3"
pretty_logger = "0.1"
reqwest = { version = "0.11", features = ["json", "multipart"] }
rpassword = "7"
serde = { version = "1", features = ["derive"] }
serde_json = "1"
serde_yaml = "0.9"
thiserror = "1"
tokio = { version = "1", features = ["macros", "rt-multi-thread"] }
url = { version = "2", features = ["serde"] }
