[package]
name = "coreminer"
version = "0.1.0"
edition = "2021"
publish = false

[dependencies]
gimli = "=0.34.0"
addr2line = "=0.27.1"
object = "=0.40.0"
iced-x86 = "=1.21.0"
nix = { version = "=0.31.3", features = ["ptrace", "process", "signal"] }
proc-maps = "=0.5.0"
dialoguer = "=0.12.0"
