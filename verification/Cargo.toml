[package]
name = "overlay_hijack"
version = "0.1.0"
edition = "2021"
publish = false

[dependencies]
rand = "0.9"
windows = { version = "0.61", features = [
    "Win32_Foundation",
    "Win32_Graphics_Dwm",
    "Win32_Graphics_Gdi",
    "Win32_Graphics_OpenGL",
    "Win32_UI_WindowsAndMessaging",
    "Win32_UI_Controls",
    "Win32_System_LibraryLoader",
] }
skia-safe = { version = "*", features = ["gl"] }
str_crypter = "*"
