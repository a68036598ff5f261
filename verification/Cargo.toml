[package]
name = "doxing-emulator"
version = "0.1.0"
edition = "2021"
publish = false

[dependencies]
frakti = { version = "=0.51.0", features = ["client-cyper"] }
compio = { version = "=0.19.2", features = ["macros", "fs"] }
anyhow = "=1.0.104"
log = "=0.4.35"
env_logger = "=0.11.11"
toml = "=1.2.1"
serde = { version = "=1.0.229", features = ["derive"] }
futures-util = "=0.3.34"
