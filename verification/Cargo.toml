[package]
name = "alcro"
version = "0.5.4"
edition = "2021"
publish = false

[dependencies]
serde_json = "=1.0.154"
dashmap = "=5.5.3"
crossbeam-channel = "=0.5.17"
libc = "=0.2.191"
nix = "=0.26.4"
tempdir = "=0.3.7"
thiserror = "=1.0.69"
tinyfiledialogs = "=3.9.1"
winapi = { version = "=0.3.9", features = ["errhandlingapi", "fileapi", "handleapi", "minwinbase", "minwindef", "namedpipeapi", "ntdef", "processthreadsapi", "synchapi", "winbase", "winnt"] }
