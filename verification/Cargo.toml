[package]
name = "worktrunk-wip"
version = "0.1.0"
edition = "2021"
publish = false

[dependencies]
anyhow = "=1.0.104"
chrono = { version = "=0.4.45", default-features = false, features = ["now"] }
clap = { version = "=4.6.7", features = ["derive"] }
color-print = "=0.3.7"
gethostname = "=1.1.0"
serde = { version = "=1.0.229", features = ["derive"] }
serde_json = "=1.0.154"
toml = "=1.1.8"
worktrunk = { version = "=0.67.0", default-features = false }
vergen = "=10.0.0"
vergen-gitcl = "=10.0.0"
vergen-lib = "=10.0.0"
