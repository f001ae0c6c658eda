[package]
name = "gocycling"
version = "0.1.0"
edition = "2021"
publish = false

[dependencies]
arrayvec = "0.7"
postcard = "0.7"
cortex-m-rt = "*"
embedded-hal = "*"
embedded-time = "*"
rp2040-boot2 = "*"
rp2040-hal = "*"
