[package]
name = "safeflight"
version = "0.1.0"
edition = "2021"
publish = false

[dependencies]
byteorder = "=1.5.0"
time = "=0.1.45"
i2cdev = "=0.3.2"
i2csensors = "=0.1.3"
i2cdev-bmp280 = "=0.1.4"
i2cdev-lsm9ds0 = "=0.1.3"
pca9685 = "=0.1.0"
unbounded-gpsd = "=0.6.0"
nalgebra = "=0.35.0"
serde = { version = "=1.0.229", features = ["derive"] }
toml = "=1.2.1"
ansi_term = "=0.12.1"
