[package]
name = "fp_extension"
version = "0.1.0"
edition = "2021"
publish = false

[dependencies]
chrono = { version = "=0.4.45", default-features = false, features = ["clock"] }
mongodb = { version = "=3.9.1", default-features = false, features = ["sync", "bson-3", "compat-3-3-0", "rustls-tls"] }
arma-rs = "=1.13.0"
env_logger = { version = "=0.11.11", default-features = false }
log = "=0.4.34"
once_cell = "=1.21.4"
# mongodb's sync API starts a multi-thread tokio runtime, but with its default
# features off nothing in its graph enables tokio's rt-multi-thread; this line
# only supplies that feature.
tokio = { version = "=1.53.2", default-features = false, features = ["rt-multi-thread"] }

[dev-dependencies]
rand = "=0.10.3"
