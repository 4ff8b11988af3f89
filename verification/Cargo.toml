[package]
name = "girlvoice_ui_core"
version = "0.1.0"
edition = "2021"
publish = false

[dependencies]
cpal = "0.17"
libm = "=0.2.16"
minifb = "=0.29.0"
