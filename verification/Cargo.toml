[package]
name = "procmem"
version = "0.1.0"
edition = "2021"
publish = false

[dependencies]
libc = "0.2"
mach = "0.3"
windows-sys = { version = "*", features = ["Win32_Foundation", "Win32_System_ProcessStatus", "Win32_System_Threading"] }
