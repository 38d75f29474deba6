[package]
name = "ic_static_assets"
version = "0.1.0"
edition = "2021"
publish = false

[dependencies]
ic-asset-certification = "*"
ic-http-certification = "*"
ic-cdk = "*"
include_dir = "*"
