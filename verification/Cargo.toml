[package]
name = "juniper_compose"
version = "0.1.0"
edition = "2021"
publish = false

[dependencies]
juniper = "0.16"
