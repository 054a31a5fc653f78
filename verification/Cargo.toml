[package]
name = "mightybadger_gotham"
version = "0.1.0"
edition = "2021"
publish = false

[dependencies]
http = "*"
gotham = "*"
gotham_derive = "*"
pin-project = "*"
