[package]
name = "chess_analysis"
version = "0.1.0"
edition = "2021"
publish = false

[dependencies]
chess = "=3.2.0"
macroquad = "=0.4.16"
single-instance = "=0.3.3"
