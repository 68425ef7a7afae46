[package]
name = "gd32vf103xx_hal"
version = "0.1.0"
edition = "2021"
publish = false

[dependencies]
gd32vf103-pac = "*"
usb-device = "*"
critical-section = "*"
riscv = "*"
embedded-hal = "0.2"
nb = "1"
void = "1"
embedded-can = "*"
embedded-storage = "*"
synopsys-usb-otg = { version = "*", features = ["fs"] }
