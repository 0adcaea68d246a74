[package]
name = "yewchat"
version = "0.1.0"
edition = "2021"
publish = false

[dependencies]
serde = { version = "1", features = ["derive"] }
serde_json = "1"
log = "0.4"
futures = "0.3"
http = "1"
tokio = { version = "1", features = ["full"] }
tokio-websockets = { version = "0.10", features = ["client", "fastrand", "sha1_smol"] }
yew = "0.19"
yew-router = "0.16"
yew-agent = "0.1"
web-sys = { version = "0.3", features = ["HtmlInputElement", "KeyboardEvent"] }
