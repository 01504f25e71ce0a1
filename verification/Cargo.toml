[package]
name = "procstat"
version = "0.1.0"
edition = "2021"
publish = false

[dependencies]
anyhow = "*"
chrono = "*"
clap = { version = "*", features = ["derive"] }
ctrlc = "*"
env_logger = "*"
log = "*"
proc_sys_parser = "*"
serde = { version = "*", features = ["derive"] }
serde_json = "*"
thiserror = "*"
tokio = { version = "*", features = ["rt-multi-thread", "macros", "time", "net"] }
axum = "*"
plotters = { version = "*", default-features = false, features = ["bitmap_backend", "bitmap_encoder", "line_series", "ab_glyph"] }
image = { version = "*", default-features = false, features = ["png"] }
