[package]
name = "printer_module"
version = "0.1.0"
edition = "2021"
publish = false

[dependencies]
encoding_rs = "0.8"
thiserror = "*"
winapi = { version = "0.3", features = ["minwindef", "windef", "basetsd", "winnt", "errhandlingapi", "combaseapi", "winuser"] }
windows = { version = "*", features = ["Win32_Foundation"] }
flutter_rust_bridge = "*"
