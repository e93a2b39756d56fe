[package]
name = "informator"
version = "0.1.0"
edition = "2021"
publish = false

[dependencies]
diesel = { version = "=2.3.14", features = ["sqlite", "r2d2"] }
r2d2 = "=0.8.10"
turso = { version = "=0.8.3", default-features = false }
teloxide = { version = "=0.17.0", default-features = false, features = ["macros", "ctrlc_handler", "native-tls"] }
takecell = "<0.1.2"
tokio = { version = "=1.54.1", features = ["macros", "rt-multi-thread"] }
clap = { version = "=4.6.7", default-features = false, features = ["std", "derive", "help", "usage", "error-context"] }
dptree = "=0.5.1"
log = "=0.4.35"
serde = { version = "=1.0.229", features = ["derive"] }
thiserror = "=2.0.21"
