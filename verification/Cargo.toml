[package]
name = "deadpool_ldap"
version = "0.1.0"
edition = "2021"
publish = false

[dependencies]
ldap3 = { version = "*", default-features = false }
deadpool = "0.9"
async-trait = "*"
actix-rt = "2"
log = "*"
