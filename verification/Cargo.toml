[package]
name = "katvan_homepage"
version = "0.1.0"
edition = "2021"
publish = false

[dependencies]
tera = { version = "=2.4.0", features = ["glob_fs"] }
serde = { version = "=1.0.229", features = ["derive"] }
ureq = { version = "=3.4.2", features = ["json"] }

[dev-dependencies]
serde_json = "=1.0.151"
