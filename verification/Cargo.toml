[package]
name = "ico_sale"
version = "0.1.0"
edition = "2021"
publish = false
