[package]
name = "bubble_level"
version = "0.1.0"
edition = "2021"
publish = false

[dependencies]
cortex-m-rt = "*"
critical-section = "*"
critical-section-lock-mut = "*"
lsm303agr = "*"
microbit-v2 = "*"
panic-rtt-target = "*"
rtt-target = "*"
