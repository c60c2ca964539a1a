[package]
name = "vsh"
version = "0.1.0"
edition = "2021"
publish = false

[dependencies]
futures = "0.3"
getopts = "0.2"
libc = "0.2"
log = "0.4"
protobuf = "2.28"
remain = "0.2"
sys_util = "0.1"
