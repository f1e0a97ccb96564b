[package]
name = "project"
version = "0.1.0"
edition = "2021"
publish = false

[dependencies]
handlebars = "=6.4.4"
liquid = "=0.23.1"
heck = "=0.5.0"
url = "=2.5.8"
git2 = "=0.21.0"
walkdir = "=2.5.0"
clap = "=4.6.7"
console = "=0.16.6"
