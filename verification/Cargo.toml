[package]
name = "project_tracker"
version = "0.1.0"
edition = "2021"
publish = false

[dependencies]
gloo = "0.4"
serde = { version = "1", features = ["derive"] }
web-sys = { version = "0.3", features = ["HtmlInputElement", "HtmlTextAreaElement"] }
yew = "0.19"
