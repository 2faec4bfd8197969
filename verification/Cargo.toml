[package]
name = "neverest"
version = "1.0.0"
edition = "2021"
publish = false

[dependencies]
anyhow = "=1.0.104"
async-trait = "=0.1.92"
clap = { version = "=4.6.7", features = ["derive"] }
clap_mangen = "=0.2.33"
color-eyre = "=0.6.5"
dialoguer = "=0.11.0"
dirs = "=7.0.0"
email-lib = { version = "=0.27.0", default-features = false }
erased-serde = "=0.4.10"
indicatif = "=0.17.11"
log = "=0.4.34"
once_cell = "=1.21.4"
pimalaya-tui = { version = "=0.3.1", default-features = false, features = ["cli", "config", "tracing"] }
secret-lib = { version = "=1.0.0", default-features = false }
serde = { version = "=1.0.229", features = ["derive"] }
serde_json = "=1.0.154"
termcolor = "=1.4.1"
tokio = { version = "=1.54.1", default-features = false, features = ["macros", "rt-multi-thread"] }
tracing = "=0.1.44"
tracing-subscriber = "=0.3.23"
