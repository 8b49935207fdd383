[package]
name = "sysdiag"
version = "0.1.0"
edition = "2021"
publish = false

[dependencies]
codepage = "0.1"
encoding_rs = "0.8"
sys-locale = "0.3"
winapi = { version = "0.3", features = ["winnls"] }
windows-sys = { version = "0.52", features = ["Win32_Foundation", "Win32_Storage_FileSystem", "Win32_System_Console", "Win32_System_SystemInformation"] }
wmi = "0.13"
