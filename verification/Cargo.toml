[package]
name = "conx"
version = "0.1.0"
edition = "2021"
publish = false

[dependencies]
r2d2 = "*"
r2d2_sqlite = { version = "*", features = ["bundled"] }
r2d2_postgres = "*"
r2d2_mysql = "*"
r2d2-oracle = "*"
postgres = "*"
postgres-openssl = "*"
openssl = "*"
urlencoding = "*"
url = "*"
