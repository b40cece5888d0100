[package]
name = "ssd1327_driver"
version = "0.1.0"
edition = "2021"
publish = false

[dependencies]
font8x8 = "*"
i2cdev = "*"
image = { version = "*", default-features = false, features = ["jpeg"] }
