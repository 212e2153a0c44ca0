[package]
name = "spike_hub"
version = "0.1.0"
edition = "2021"
publish = false

[dependencies]
cortex-m = "=0.7.10"
cortex-m-rt = "=0.7.7"
usb-device = "=0.3.2"
usbd-serial = "=0.2.2"
synopsys-usb-otg = { version = "=0.4.0", features = ["cortex-m", "fs"] }
