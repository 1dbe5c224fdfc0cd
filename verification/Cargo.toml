[package]
name = "rattler_pty"
version = "0.1.0"
edition = "2021"
publish = false

[dependencies]
nix = { version = "=0.31.3", features = ["term", "process", "signal", "fs", "time"] }
libc = "=0.2.190"
rustix = { version = "=1.1.5", features = ["termios"] }
rattler_conda_types = "=0.56.2"
archspec = "=0.2.0"
serde = { version = "=1.0.229", features = ["derive"] }
thiserror = "=1.0.69"
