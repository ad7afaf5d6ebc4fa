[package]
name = "grpc"
version = "0.1.0"
edition = "2021"
publish = false

[dependencies]
protobuf = "1.0"
solicit = "0.4"
openssl = "0.7"
futures = "0.1"
log = "0.3"
