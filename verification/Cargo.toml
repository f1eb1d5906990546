[package]
name = "fault_reporter"
version = "0.1.0"
edition = "2021"
publish = false

[dependencies]
bl602-pac = "*"
riscv = "=0.16.1"
