[package]
name = "example_payment_gateway"
version = "0.1.0"
edition = "2021"
publish = false

[dependencies]
actix-cors = "0.7"
actix-web = "4"
async-trait = "0.1"
dotenv = "0.15"
sea-orm = { version = "1.1", default-features = false, features = ["macros", "with-chrono"] }
serde = { version = "1", features = ["derive"] }
serde_json = "1"
tokio = { version = "1", features = ["macros", "rt-multi-thread"] }
tracing = "0.1"
