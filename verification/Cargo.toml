[package]
name = "chain_graph"
version = "0.1.0"
edition = "2021"
publish = false

[dependencies]
chrono = { version = "0.4", default-features = false, features = ["std"] }
serde = { version = "1", features = ["derive"] }
serde_json = "1"
neo4rs = "*"
reqwest = { version = "*", features = ["json"] }
tokio = { version = "1", features = ["macros", "rt-multi-thread"] }
warp = "0.3"
dotenv = "0.15"
