[package]
name = "klebs_plugin_interface"
version = "0.1.0"
edition = "2021"
publish = false

[dependencies]
checksums = "=0.9.1"
dynamic_reload = "=0.10.0"
