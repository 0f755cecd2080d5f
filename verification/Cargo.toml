[package]
name = "boring_school"
version = "0.1.0"
edition = "2021"
publish = false

[dependencies]
rocket = { version = "=0.5.0-rc.2", features = ["json"] }
rocket_okapi = { version = "=0.8.0-rc.2", features = ["swagger"] }
okapi = "=0.7.0-rc.1"
schemars = "0.8"
diesel = { version = "1.4", features = ["sqlite"] }
rocket_sync_db_pools = { version = "=0.1.0-rc.2", features = ["diesel_sqlite_pool"] }
jsonwebtoken = "8"
lazy_static = "1.4"
dotenvy = "0.15"
