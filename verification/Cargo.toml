[package]
name = "serialport_stream"
version = "0.3.1"
edition = "2021"
publish = false

[dependencies]
async-io = "=2.6.0"
blocking = "=1.7.0"
futures = "=0.3.34"
nix = { version = "=0.30.1", features = ["fs", "poll", "term"] }
tracing = { version = "0.1", default-features = false, features = ["std"] }
windows-sys = { version = "=0.61.2", features = [
    "Win32_Devices_Communication",
    "Win32_Foundation",
    "Win32_Security",
    "Win32_Storage_FileSystem",
    "Win32_System_IO",
    "Win32_System_Threading",
] }
