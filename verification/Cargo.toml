[package]
name = "vlc_discord_rpc"
version = "0.1.0"
edition = "2021"
publish = false

[dependencies]
semver = "1"
serde_json = "1"
reqwest = { version = "0.12", default-features = false, features = ["json", "rustls-tls"] }
tokio = { version = "1", features = ["macros", "rt-multi-thread", "sync", "time"] }
discord-rich-presence = "*"
vlc-rc = "*"

[dev-dependencies]
regex = "1"
