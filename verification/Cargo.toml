[package]
name = "todo_leptos"
version = "0.1.0"
edition = "2021"
publish = false

[dependencies]
actix-files = "=0.6.10"
actix-web = { version = "=4.18.1", default-features = false, features = ["macros", "compress-gzip"] }
leptos = { version = "=0.4.10", default-features = false, features = ["serde", "ssr"] }
leptos_actix = "=0.4.10"
leptos_meta = { version = "=0.4.10", default-features = false, features = ["ssr"] }
leptos_router = { version = "=0.4.10", default-features = false, features = ["ssr"] }
serde = { version = "=1.0.229", features = ["derive"] }
sqlx = { version = "=0.7.4", default-features = false, features = ["runtime-tokio", "sqlite", "macros", "migrate"] }
tracing = "=0.1.44"
