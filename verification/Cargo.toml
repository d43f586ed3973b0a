[package]
name = "organization_api"
version = "0.1.0"
edition = "2021"
publish = false

[dependencies]
actix-web = "=4.18.1"
diesel = { version = "=2.3.14", features = ["postgres", "r2d2"] }
log = "=0.4.34"
serde = { version = "=1.0.229", features = ["derive"] }
serde_json = "=1.0.154"
utoipa = { version = "=6.0.0", features = ["actix_extras", "uuid"] }
utoipa-swagger-ui = { version = "=10.0.2", features = ["actix-web", "vendored"] }
uuid = { version = "=1.29.0", features = ["v4", "serde"] }
