[package]
name = "gravity_sim"
version = "0.1.0"
edition = "2021"
publish = false

[dependencies]
time = "0.1"
gtk = "0.1"
gdk = "0.5"
gdk-sys = "0.3"
cairo-rs = "0.1"
