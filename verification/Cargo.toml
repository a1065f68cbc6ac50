[package]
name = "pdf_studio_ops"
version = "0.1.0"
edition = "2021"
publish = false

[dependencies]
base64 = "0.22"
dirs = "6"
open = "5"
whoami = "1"
