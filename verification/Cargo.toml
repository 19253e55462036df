[package]
name = "minidump_writer"
version = "0.1.0"
edition = "2021"
publish = false

[dependencies]
crash-context = "0.6"
minidump-common = "0.17"
scroll = "0.11"
winapi = { version = "0.3", features = ["basetsd", "handleapi", "minwindef", "ntstatus", "processthreadsapi", "winnt"] }
