[package]
name = "gorbagana_slots"
version = "0.1.0"
edition = "2021"
publish = false

[dependencies]
anchor-lang = "0.29.0"
switchboard-on-demand = "*"
