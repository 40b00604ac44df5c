[package]
name = "photo_sort"
version = "0.2.6"
edition = "2021"
publish = false

[dependencies]
regex = "1"
chrono = "0.4"
anyhow = "1"
log = "0.4"
kamadak-exif = "*"
filetime = "0.2"
symlink = "*"
threadpool = "1"
clap = { version = "4", features = ["derive"] }
fern = { version = "*", features = ["colored"] }
indicatif = "*"
