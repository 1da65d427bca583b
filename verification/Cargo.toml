[package]
name = "lightdotso_api"
version = "0.1.0"
edition = "2021"
publish = false

[dependencies]
axum = "=0.6.20"
eyre = "=0.6.14"
governor = "=0.6.3"
http = "=0.2.12"
reqwest = { version = "=0.11.27", default-features = false, features = ["json", "rustls-tls"] }
serde = { version = "=1.0.229", features = ["derive"] }
tokio = { version = "=1.54.1", features = ["macros", "rt-multi-thread"] }
tower = "=0.4.13"
tower-http = { version = "=0.4.4", features = ["cors", "trace"] }
tower_governor = "=0.1.0"
tracing = "=0.1.44"
utoipa = { version = "=4.2.3", features = ["axum_extras"] }
utoipa-rapidoc = { version = "=1.0.0", features = ["axum"] }
utoipa-redoc = { version = "=1.0.0", features = ["axum"] }
utoipa-swagger-ui = { version = "=4.0.0", features = ["axum"] }
