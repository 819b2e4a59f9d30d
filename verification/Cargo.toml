[package]
name = "gib"
version = "0.1.0"
edition = "2021"
publish = false

[dependencies]
regex = "=1.13.1"
flate2 = "=1.1.10"
tar = "=0.4.46"
sanitize-filename = "=0.2.1"
serde = { version = "=1.0.229", features = ["derive"] }
serde_json = "=1.0.154"
toml = "=0.5.11"
actix-web = { version = "=3.3.3", default-features = false, features = ["openssl"] }
actix-multipart = "=0.3.0"
actix-files = "=0.4.1"
actix-session = "=0.4.1"
actix-web-middleware-redirect-scheme = "=3.0.0"
diesel = { version = "=1.4.8", default-features = false, features = ["postgres", "r2d2"] }
dotenv = "=0.15.0"
env_logger = "=0.8.4"
handlebars = { version = "=3.5.5", features = ["dir_source"] }
openssl = "=0.10.82"
futures = "=0.3.34"
reqwest = { version = "=0.10.10", default-features = false, features = ["rustls-tls"] }
tokio = { version = "=0.2.25", features = ["macros", "rt-threaded"] }
clap = { version = "=2.34.0", features = ["yaml"] }
yew = "=0.17.4"
wasm-bindgen = "=0.2.130"
web-sys = { version = "=0.3.107", features = ["Storage", "Window", "MouseEvent"] }
