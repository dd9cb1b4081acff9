[package]
name = "serenityjs_leveldb"
version = "0.1.0"
edition = "2021"
publish = false

[dependencies]
miniz_oxide = "0.8"
rusty-leveldb = "3"
napi = "2"
napi-derive = "2"
