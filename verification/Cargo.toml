[package]
name = "pastebee"
version = "0.1.0"
edition = "2021"
publish = false

[dependencies]
argon2 = "0.4"
rand = "0.8"
rocket = { version = "0.5", features = ["secrets"] }
rocket_db_pools = { version = "0.2", features = ["sqlx_sqlite"] }
rocket_dyn_templates = { version = "0.2", features = ["handlebars"] }
sqlx = { version = "0.7", default-features = false, features = ["sqlite"] }
