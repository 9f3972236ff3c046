[package]
name = "ta_agi_doorbell"
version = "0.1.0"
edition = "2021"
publish = false

[dependencies]
coe = "*"
hex = "*"
sha1 = "*"
rand = "*"
serde = { version = "*", features = ["derive"] }
toml = "*"
tokio = { version = "*", features = ["macros", "rt-multi-thread", "net", "time"] }
async-trait = "*"
blazing_agi = "*"
blazing_agi_macros = "*"
tracing = "*"
tracing-subscriber = "*"
