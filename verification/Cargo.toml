[package]
name = "itunes_com"
version = "0.2.0"
edition = "2021"
publish = false

[dependencies]
widestring = "1"
num-traits = "0.2"
paste = "1"
windows = { version = "0.48", features = ["implement", "Win32_Foundation", "Win32_System_Com", "Win32_System_Ole", "Win32_Media_Multimedia"] }
