[package]
name = "linkage_firewall"
version = "0.1.0"
edition = "2021"
publish = false

[dependencies]
which = "4"
clap = "2"
ctrlc = "3"
libc = "0.2"
ovpnfile = "*"
regex = "1"
reqwest = { version = "0.11", default-features = false, features = ["blocking"] }
random-string = "*"
thiserror = "1"
is_elevated = "*"
