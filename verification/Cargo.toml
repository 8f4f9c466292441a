[package]
name = "tpt-ignis"
version = "0.1.0"
edition = "2021"
publish = false

[dependencies]
base64 = "0.22"
serde = { version = "1", features = ["derive"] }
serde_json = "1"
rmp-serde = "1"
thiserror = "1"
rand = "0.8"
rand_distr = "0.4"
rustfft = "6"
num-complex = "0.4"
ndarray = "0.16"
clap = { version = "4", features = ["derive", "env"] }
tokio = { version = "1", features = ["macros", "rt-multi-thread"] }
anyhow = "1"
