[package]
name = "cio"
version = "0.1.0"
edition = "2021"
publish = false

[dependencies]
handlebars = "*"
hubcaps = "*"
serde_json = "*"
