[package]
name = "web_view"
version = "0.1.0"
edition = "2021"
publish = false

[dependencies]
urlencoding = "1"
percent-encoding = "2"
boxfnonce = "0.1"
tinyfiledialogs = "3"
