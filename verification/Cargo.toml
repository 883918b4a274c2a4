[package]
name = "riscv_regs"
version = "0.1.0"
edition = "2021"
publish = false

[dependencies]
bit_field = "0.10"
tock-registers = "0.9"
volatile-register = "0.2"
