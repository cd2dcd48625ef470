[package]
name = "hyper_mock_client"
version = "0.1.0"
edition = "2021"
publish = false

[dependencies]
axum = "0.6"
hyper = "0.14"
futures = "0.3"
tower = "0.4"
