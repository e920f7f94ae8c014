[package]
name = "rusddit"
version = "0.1.0"
edition = "2021"
publish = false

[dependencies]
nanoid = "*"
rawr = "*"
slog = "*"
slog-async = "*"
slog-json = "*"
sys-info = "*"
termion = "*"
