[package]
name = "gamepad_core"
version = "0.1.0"
edition = "2021"
publish = false

[dependencies]
sdl2 = "0.37"
rusty-xinput = "1"
winapi = { version = "0.3", features = ["xinput"] }
serde = { version = "1", features = ["derive"] }
tauri = { version = "2", default-features = false }
