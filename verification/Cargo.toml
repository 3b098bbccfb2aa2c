[package]
name = "browser_tasks"
version = "0.1.0"
edition = "2021"
publish = false

[dependencies]
url = "*"
http = "*"
stdweb = "*"
