[package]
name = "hangitbot"
version = "0.1.0"
edition = "2021"
publish = false

[dependencies]
teloxide = { version = "=0.12.2", default-features = false, features = ["macros", "ctrlc_handler", "rustls"] }
takecell = "=0.1.1"
strfmt = "=0.2.6"
regex = "=1.13.1"
rand = "=0.8.8"
tokio = { version = "=1.54.1", features = ["macros", "rt-multi-thread"] }
clap = { version = "=4.6.7", features = ["derive", "env"] }
dptree = "=0.3.0"
reqwest = { version = "=0.11.27", default-features = false, features = ["rustls-tls"] }
sea-orm = { version = "=0.12.15", default-features = false, features = ["sqlx-sqlite", "runtime-tokio-rustls", "macros", "with-bigdecimal"] }
wd_log = "=0.4.0"
