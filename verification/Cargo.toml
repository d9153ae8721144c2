[package]
name = "pq_space"
version = "0.1.0"
edition = "2021"
publish = false

[dependencies]
pq-ucan = { version = "=0.1.2", features = ["ml-dsa"] }
did-bio-core = "=0.2.0"
aws-lc-rs = "=1.19.0"
thiserror = "=2.0.21"

[dev-dependencies]
testresult = "=0.4.2"
