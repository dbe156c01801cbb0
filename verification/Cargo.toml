[package]
name = "hal_core"
version = "0.1.0"
edition = "2021"
publish = false

[dependencies]
riscv = "=0.11.1"
loongArch64 = "=0.2.6"
spin = "=0.9.9"
log = "=0.4.34"
fdt = "=0.1.5"
owo-colors = "=3.5.0"
