[package]
name = "sigbench"
version = "0.1.0"
edition = "2021"
publish = false

[dependencies]
sha2 = "=0.10.9"
hex = "=0.4.3"
blake2-rfc = "=0.2.18"
hbs-lms = "=0.1.1"
ml-dsa = "=0.0.4"
pqcrypto-falcon = "=0.4.1"
pqcrypto-sphincsplus = "=0.7.2"
pqcrypto-traits = "=0.3.5"
winternitz-ots = "=0.3.0"
xmss = "=0.1.0-pre.0"
