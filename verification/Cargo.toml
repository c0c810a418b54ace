[package]
name = "teo_runtime"
version = "0.1.0"
edition = "2021"
publish = false

[dependencies]
bigdecimal = "=0.4.11"
indexmap = "=2.14.2"
num-integer = "=0.1.47"
regex = "=1.13.1"
teo-teon = "=0.2.19"
teo-result = "=0.2.32"
key-path = "=0.2.3"
futures-util = "=0.3.34"
tokio = { version = "=1.54.1", features = ["sync"] }
teo-parser = "=0.3.0"
