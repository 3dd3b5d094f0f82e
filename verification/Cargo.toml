[package]
name = "crypto_engine"
version = "0.1.0"
edition = "2021"
publish = false

[dependencies]
sha3 = "=0.10.9"
blake3 = "=1.8.7"
chacha20poly1305 = "=0.10.1"
argon2 = "=0.6.0"
pqcrypto-kyber = "=0.8.1"
pqcrypto-traits = "=0.3.5"
getrandom = "=0.4.3"
primal = "=0.3.3"
openssl = "*"
