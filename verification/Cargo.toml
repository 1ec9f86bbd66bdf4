[package]
name = "heat1d"
version = "0.1.0"
edition = "2021"
publish = false

[dependencies]
ndarray = "=0.17.2"
ndarray-linalg = "=0.18.1"
gnuplot = "=0.0.46"
