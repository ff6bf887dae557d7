[package]
name = "co2esp32tg"
version = "0.1.0"
edition = "2021"
publish = false

[dependencies]
base64 = "0.13"
chrono = "0.4"
dotenv = "0.15"
image = { version = "0.24", default-features = false, features = ["png"] }
plotters = { version = "0.3", default-features = false, features = ["bitmap_backend", "bitmap_encoder", "line_series", "datetime"] }
reqwest = { version = "0.11", default-features = false, features = ["blocking", "multipart"] }
rocket = { version = "0.5", features = ["json"] }
rusqlite = { version = "0.29", features = ["bundled"] }
serde = { version = "1", features = ["derive"] }
