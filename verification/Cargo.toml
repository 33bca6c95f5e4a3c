[package]
name = "stats_provider"
version = "0.1.0"
edition = "2021"
publish = false

[dependencies]
anyhow = "1"
clap = { version = "4", features = ["derive"] }
mach-sys = "*"
starship-battery = "*"
sysinfo = "*"
tokio = { version = "1", features = ["macros", "rt-multi-thread", "signal", "sync", "time"] }
