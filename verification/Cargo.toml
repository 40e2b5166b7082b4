[package]
name = "rovella"
version = "0.1.0"
edition = "2021"
publish = false

[dependencies]
winapi = { version = "=0.3.9", features = ["windowsx", "winuser", "minwindef", "windef", "errhandlingapi", "libloaderapi", "synchapi"] }
x11 = "=2.21.0"
xcb = "=0.9.0"
libc = "=0.2.191"
futures = "=0.3.34"
wgpu = "=0.13.1"
raw-window-handle = "=0.4.3"
