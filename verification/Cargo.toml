[package]
name = "dns"
version = "0.1.0"
edition = "2021"
publish = false

[dependencies]
clap = { version = "4", features = ["derive"] }
clap-verbosity-flag = "*"
log = "0.4"
macros-rs = "*"
pretty_env_logger = "*"
tokio = { version = "1", features = ["macros", "rt-multi-thread"] }
