[package]
name = "nerd_duels"
version = "0.1.0"
edition = "2021"
publish = false

[dependencies]
fastrand = "*"
console_engine = "*"
euclid = "*"
