[package]
name = "pq_sig_bench"
version = "0.1.0"
edition = "2021"
publish = false

[dependencies]
aws-lc-rs = { version = "=1.19.0", features = ["unstable"] }
fastcrypto = "=0.1.11"
libc = "=0.2.191"
libcrux-ml-dsa = "=0.0.11"
ml-dsa = "=0.1.2"
mysten-mldsa-native-rs = { version = "=0.2.0", features = ["native"] }
pqcrypto-falcon = "=0.4.1"
pqcrypto-mldsa = "=0.1.2"
pqcrypto-traits = "=0.3.5"
rand = "=0.8.8"
