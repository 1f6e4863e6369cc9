[package]
name = "caf_rust"
version = "0.1.0"
edition = "2021"
publish = false

[dependencies]
rustfft = "6"
num-complex = "0.4"
num-traits = "0.2"
rayon = "1"
bytemuck = "1"
threadpool = "1"
num_cpus = "1"
