[package]
name = "aiarena_client_gui_backend_lib"
version = "0.1.0"
edition = "2021"
publish = false

[dependencies]
anyhow = "1"
itertools = "0.10"
rand = "0.8"
crossbeam = "0.8"
serde = { version = "1", features = ["derive"] }
serde_json = "1"
directories = "3"
fs2 = "0.4"
log = "0.4"
env_logger = "0.8"
chrono = "0.4"
zip = "0.5"
futures = "0.3"
async-rwlock = "1"
actix-web = "3"
actix-cors = "0.5"
