[package]
name = "cortex_m"
version = "0.1.0"
edition = "2021"
publish = false

[dependencies]
volatile-register = "0.2"
bare-metal = "0.2"
embedded-hal = "0.2"
mutex-trait = "0.2"
aligned = "0.3"
serde = { version = "1", features = ["derive"] }
