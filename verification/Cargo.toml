[package]
name = "tantivy_search"
version = "0.1.0"
edition = "2021"
publish = false

[dependencies]
tantivy = "0.22"
roaring = "0.10"
time = { version = "0.3", features = ["parsing"] }
cxx = "1"
