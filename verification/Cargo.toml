[package]
name = "stressbench"
version = "0.1.0"
edition = "2021"
publish = false

[dependencies]
num_cpus = "1"
crossterm = "0.25"
sysinfo = "0.29"
tui = "0.19"
