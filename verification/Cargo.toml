[package]
name = "mediatimer"
version = "0.1.0"
edition = "2021"
publish = false

[dependencies]
ratatui = "=0.29.0"
crossterm = "=0.28.1"
ratatui-explorer = "=0.2.1"
dotenvy = "=0.15.7"
home = "=0.5.12"
regex = "=1.13.1"
whoami = "=1.6.1"
indoc = "=2.0.8"
log = "=0.4.34"
systemd-journal-logger = "=2.2.2"
