[package]
name = "w9pt-fs-state-postgres"
version = "0.1.0"
edition = "2021"
publish = false

[dependencies]
async-trait = "=0.1.92"
sea-orm = { version = "=1.1.20", default-features = false, features = ["macros", "postgres-array", "runtime-tokio", "sqlx-postgres", "with-rust_decimal"] }
sea-orm-migration = { version = "=1.1.20", default-features = false, features = ["runtime-tokio", "sqlx-postgres"] }
