[package]
name = "testing"
version = "0.1.0"
edition = "2021"
publish = false

[dependencies]
chrono = "0.4"
rand = "0.8"
dirs = "4"
expectrl = "0.5"
log = "0.4"
dotenv = "0.15"
async-trait = "0.1"
cucumber = "0.13"
