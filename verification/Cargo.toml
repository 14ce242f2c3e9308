[package]
name = "fall_alarm"
version = "0.1.0"
edition = "2021"
publish = false

[dependencies]
cortex-m-rt = "=0.7.7"
critical-section-lock-mut = "=0.1.2"
embedded-hal = "=1.0.0"
lsm303agr = "=1.1.0"
microbit-v2 = "=0.16.0"
panic-rtt-target = "=0.2.0"
rtt-target = "=0.6.2"
