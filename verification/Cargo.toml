[package]
name = "chess_session"
version = "0.1.0"
edition = "2021"
publish = false

[dependencies]
shakmaty = "=0.29.4"
uci = "=0.2.3"
env_logger = "=0.11.11"
