[package]
name = "buf_redux"
version = "0.1.0"
edition = "2021"
publish = false

[dependencies]
memchr = "2"
safemem = "0.3"
