[package]
name = "material_cosmic"
version = "0.1.0"
edition = "2021"
publish = false

[dependencies]
material-colors = { version = "=0.4.2", features = ["image"] }
image = "=0.25.10"
anyhow = "*"
clap = { version = "*", features = ["derive"] }
directories = "*"
serde = { version = "*", features = ["derive"] }
tokio = { version = "*", features = ["rt", "macros", "time"] }
zbus = "*"
