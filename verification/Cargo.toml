[package]
name = "task_once"
version = "0.1.0"
edition = "2021"
publish = false

[dependencies]
crossbeam-utils = "*"
futures = "=0.3.34"
