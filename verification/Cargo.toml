[package]
name = "winshift"
version = "0.1.0"
edition = "2021"
publish = false

[dependencies]
chrono = "0.4"
cocoa = "0.25"
colored = "2"
core-foundation = "0.9"
ctrlc = "3"
libc = "0.2"
log = "0.4"
log4rs = "1"
objc = "0.2"
thiserror = "1"
windows = { version = "0.52", features = ["Win32_Foundation", "Win32_System_Threading", "Win32_UI_Accessibility", "Win32_UI_WindowsAndMessaging"] }
x11 = { version = "2", features = ["xlib"] }
