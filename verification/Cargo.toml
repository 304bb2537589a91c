[package]
name = "onedsixapi"
version = "0.1.0"
edition = "2021"
publish = false

[dependencies]
chrono = "0.4"
regex = "1"
censor = "0.3"
actix-web = { version = "4", default-features = false, features = ["macros", "cookies", "secure-cookies"] }
actix-cors = "0.7"
actix-files = "0.6"
actix-identity = "0.7"
actix-session = { version = "0.9", features = ["cookie-session"] }
governor = "0.6"
serde = { version = "1", features = ["derive"] }
serde_json = "1"
sqlx = { version = "0.8", default-features = false, features = ["runtime-tokio", "postgres", "macros", "migrate"] }
futures = "0.3"
futures-util = "0.3"
lazy_static = "1"
log = "0.4"
thiserror = "1"
reqwest = { version = "0.12", default-features = false, features = ["json"] }
shuttle-runtime = { version = "*", default-features = false }
