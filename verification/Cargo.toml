[package]
name = "huskarl_pingora"
version = "0.1.0"
edition = "2021"
publish = false

[dependencies]
async-trait = "0.1"
base64 = "0.22"
bytes = "1"
http = "1"
huskarl = { version = "=0.7.2", default-features = false }
huskarl-resource-server = { version = "=0.7.0", default-features = false }
log = "0.4"
matchit = "=0.8.6"
pingora-core = "0.8"
pingora-error = "0.8"
pingora-http = "0.8"
pingora-proxy = "0.8"
pingora-proxy-delegate = "0.1"
serde = { version = "1", features = ["derive"] }
serde_html_form = "*"
serde_json = "1"
uuid = { version = "1", features = ["v7"] }
