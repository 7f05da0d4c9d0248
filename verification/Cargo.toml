[package]
name = "zkwasm"
version = "0.1.0"
edition = "2021"
publish = false

[dependencies]
anyhow = "1"
byteorder = "1"
chksum-md5 = "0.1.0"
halo2_proofs = "0.2"
num-bigint = "0.4"
num-traits = "0.2"
pairing_ce = "0.28"
reqwest = { version = "0.11", default-features = false, features = ["blocking"] }
