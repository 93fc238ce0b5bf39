[package]
name = "pdfiumtoppm"
version = "0.1.0"
edition = "2021"
publish = false

[dependencies]
pdfium-render = "0.9.3"
image = { version = "0.25.10", default-features = false, features = ["pnm", "png"] }
png = "0.18"
libc = "0.2"
windows-sys = { version = "0.59", features = ["Win32_Foundation", "Win32_Security", "Win32_System_SystemInformation", "Win32_System_JobObjects", "Win32_System_Threading"] }
