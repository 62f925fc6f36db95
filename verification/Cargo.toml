[package]
name = "substrate_features"
version = "0.1.0"
edition = "2021"
publish = false

[dependencies]
array-bytes = "=4.2.0"
bytes = "=1.12.1"
frame-support = "49.0.1"
frame-system = "*"
futures = "=0.3.34"
log = "=0.4.35"
lru = "=0.7.8"
parity-scale-codec = "=3.7.5"
sc-network-common = "=0.56.0"
serde_json = "=1.0.154"
sp-consensus-slots = "=0.50.0"
sp-core = "=43.0.0"
sp-io = "=49.0.0"
sp-runtime = "=49.0.0"
sp-tracing = "=19.0.0"
