[package]
name = "wallpaper_render"
version = "0.1.0"
edition = "2021"
publish = false

[dependencies]
color-eyre = { version = "=0.6.5", default-features = false }
gl = "=0.14.0"
image = { version = "=0.24.9", default-features = false }
khronos-egl = { version = "=6.0.0", features = ["static", "no-pkg-config"] }
smithay-client-toolkit = { version = "=0.18.1", default-features = false }
wayland-backend = { version = "=0.3.17", features = ["dlopen"] }
wayland-egl = "=0.32.11"
