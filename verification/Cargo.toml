[package]
name = "dataflow_engine"
version = "0.1.0"
edition = "2021"
publish = false

[dependencies]
arrow-array = "=44.0.0"
async-backtrace = "=0.2.7"
async-trait = "=0.1.92"
futures = "=0.3.34"
icelake = "=0.0.9"
opendal = "=0.39.0"
tracing = "=0.1.44"
