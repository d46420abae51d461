[package]
name = "rip_media"
version = "0.1.0"
edition = "2021"
publish = false

[dependencies]
anyhow = "*"
clap = { version = "*", features = ["derive"] }
clap-verbosity-flag = "*"
glob = "*"
libc = "*"
log = "*"
rustyline = "*"
stderrlog = "*"
