[package]
name = "ping_thing_client"
version = "0.1.0"
edition = "2021"
publish = false

[dependencies]
anyhow = "=1.0.104"
base64 = "=0.22.1"
bs58 = "=0.5.1"
dotenv = "=0.15.0"
env_logger = "=0.11.11"
futures = "=0.3.34"
log = "=0.4.34"
prometheus = "=0.14.0"
reqwest = { version = "=0.12.28", features = ["json"] }
serde = { version = "=1.0.229", features = ["derive"] }
serde_json = "=1.0.154"
solana-compute-budget-interface = "=3.1.0"
solana-keypair = "=4.0.0"
solana-message = "=6.0.0"
solana-pubkey = "=4.4.0"
solana-signer = "=4.0.0"
solana-system-interface = { version = "=3.3.0", features = ["wincode"] }
solana-transaction = { version = "=6.0.0", features = ["wincode"] }
tokio = { version = "=1.54.1", features = ["full"] }
tonic = "=0.14.6"
warp = { version = "=0.4.3", features = ["server"] }
wincode = "=0.6.3"
yellowstone-grpc-client = "=16.0.0"
yellowstone-grpc-proto = { version = "=14.0.1", default-features = false }
