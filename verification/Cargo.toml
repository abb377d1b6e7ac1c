[package]
name = "yap"
version = "0.1.0"
edition = "2021"
publish = false

[dependencies]
chrono = { version = "*", default-features = false, features = ["clock", "std"] }
clap = { version = "*", features = ["derive"] }
futures = "*"
indicatif = "*"
libsql = { version = "*", default-features = false, features = ["core"] }
menva = "*"
meowhash = "*"
opendal = { version = "*", default-features = false, features = ["services-gcs", "services-koofr", "services-pcloud"] }
regex = "*"
serde = { version = "*", features = ["derive"] }
serde_json = "*"
tokio = { version = "*", features = ["fs", "io-util", "macros", "process", "rt-multi-thread"] }
toml = "*"
unidecode = "*"
