[package]
name = "habitat_sup"
version = "0.1.0"
edition = "2021"
publish = false

[dependencies]
ansi_term = "=0.12.1"
toml = "=0.5.11"
glob = "=0.3.4"
notify = "=4.0.18"
handlebars = "=3.5.5"
