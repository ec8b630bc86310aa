[package]
name = "nu_plugin_rpm"
version = "0.3.0"
edition = "2021"
publish = false

[dependencies]
rpm = { version = "=0.16.1", default-features = false, features = ["chrono"] }
unix_mode = "=0.1.4"
nu-plugin = { version = "=0.110.0", default-features = false }
nu-protocol = "=0.110.0"
