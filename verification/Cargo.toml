[package]
name = "rel_ptr"
version = "0.1.0"
edition = "2021"
publish = false

[dependencies]
bytecheck = "0.8"
ptr_meta = "0.3"
