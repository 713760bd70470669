[package]
name = "nomad"
version = "0.1.0"
edition = "2021"
publish = false

[dependencies]
cola-crdt = "=0.1.1"
crop = "=0.4.3"
nvim-oxi = { version = "=0.6.0", features = ["neovim-0-11"] }
tracing = "=0.1.44"
tracing-subscriber = "=0.3.23"
tracing-appender = "=0.2.5"
time = { version = "=0.3.55", features = ["macros", "formatting"] }
home = "=0.5.12"
serde = { version = "=1.0.229", features = ["derive"] }
async-broadcast = "=0.7.2"
pin-project = "=1.1.13"
slotmap = "=1.1.1"
smallvec = "=1.16.4"
compact_str = "=0.10.0"
nohash = "=0.2.0"
fxhash = "=0.2.1"
proc-macro2 = "=1.0.107"
quote = "=1.0.47"
syn = { version = "=2.0.119", features = ["full"] }
