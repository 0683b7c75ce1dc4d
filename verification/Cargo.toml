[package]
name = "vector_db_proxy"
version = "0.1.0"
edition = "2021"
publish = false

[dependencies]
anyhow = "*"
async-trait = "*"
lopdf = "*"
pdf-extract = "*"
pinecone-sdk = "*"
prost-types = "*"
serde = { version = "*", features = ["derive"] }
serde_json = "*"
