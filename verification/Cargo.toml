[package]
name = "rollback_core"
version = "0.1.0"
edition = "2021"
publish = false

[dependencies]
backroll = "=0.6.0"
backroll_transport_udp = "=0.6.0"
bevy_tasks = "=0.9.1"
bytemuck = { version = "=1.25.2", features = ["derive"] }
macroquad = "=0.4.16"
tracing-subscriber = { version = "=0.3.23", features = ["env-filter"] }
