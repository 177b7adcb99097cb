[package]
name = "niri_input"
version = "0.1.0"
edition = "2021"
publish = false

[dependencies]
smithay = { version = "=0.7.0", default-features = false, features = ["backend_libinput", "wayland_frontend"] }
tracy-client = { version = "=0.16.5", default-features = false }
xkeysym = "=0.2.1"
