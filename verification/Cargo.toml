[package]
name = "winput"
version = "0.1.0"
edition = "2021"
publish = false

[dependencies]
serde = { version = "1", features = ["derive"] }
stoppable_thread = "*"
winapi = { version = "0.3", features = ["winuser", "errhandlingapi", "winbase", "libloaderapi", "hidusage", "windef", "minwindef"] }
