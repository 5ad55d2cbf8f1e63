[package]
name = "threader"
version = "0.1.0"
edition = "2021"
publish = false

[dependencies]
crossbeam = "=0.7.3"
futures = "=0.3.34"
mio = "=0.6.23"
num_cpus = "=1.17.0"
once_cell = "=1.21.4"
parking_lot = "=0.11.2"
