[package]
name = "exec_uproc"
version = "0.1.0"
edition = "2021"
publish = false

[dependencies]
nix = "=0.26.4"
sys-mount = { version = "=2.1.1", default-features = false }
caps = "=0.5.6"
libseccomp = "=0.3.0"
chrono = "=0.4.45"
env_logger = "=0.10.2"
log = "=0.4.34"
