[package]
name = "psilo_text"
version = "0.1.0"
edition = "2021"
publish = false

[dependencies]
rect_packer = "=0.2.1"
rustybuzz = "=0.20.1"
ttf-parser = "=0.25.1"
fdsm = "=0.8.0"
fdsm-ttf-parser = "*"
image = { version = "=0.25.10", default-features = false }
nalgebra = "=0.34.2"
log = "=0.4.34"
