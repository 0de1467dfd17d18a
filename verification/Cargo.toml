[package]
name = "katalog_lib"
version = "0.1.0"
edition = "2021"
publish = false

[dependencies]
bon = "*"
clap = "*"
derive_more = { version = "*", features = ["from", "into", "is_variant"] }
iced_core = "*"
iceoryx2 = "*"
iceoryx2-bb-container = "*"
log = "*"
rand = "*"
serde = { version = "*", features = ["derive"] }
thiserror = "*"
