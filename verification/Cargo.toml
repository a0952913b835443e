[package]
name = "rvgadget"
version = "0.1.0"
edition = "2021"

[dependencies]
capstone = "*"
colored = "*"
