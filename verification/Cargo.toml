[package]
name = "layerwatch"
version = "0.1.0"
edition = "2021"
publish = false

[dependencies]
anyhow = "1"
async-trait = "0.1"
clap = { version = "4", features = ["derive"] }
clap-num = "1"
config = { version = "*", default-features = false, features = ["toml", "json", "yaml", "preserve_order"] }
futures = "0.3"
hidapi = { version = "2", default-features = false, features = ["linux-native-basic-udev"] }
log = "0.4"
serde = { version = "1", features = ["derive"] }
simple_logger = "*"
tokio = { version = "1", features = ["net", "rt", "macros"] }
tokio-i3ipc = "*"
tokio-util = { version = "0.7", features = ["codec"] }
