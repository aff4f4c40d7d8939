[package]
name = "winc"
version = "0.1.0"
edition = "2021"
publish = false

[dependencies]
fxhash = "*"
indexmap = "*"
image = { version = "*", default-features = false, features = ["png"] }
widestring = "*"
windows = { version = "*", features = ["Win32_Foundation", "Win32_Graphics_Gdi", "Win32_Graphics_Dxgi", "Win32_Graphics_Dxgi_Common", "Win32_Graphics_Direct3D", "Win32_Graphics_Direct3D11", "Win32_System_LibraryLoader"] }
