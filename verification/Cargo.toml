[package]
name = "crazy_synth"
version = "0.1.0"
edition = "2021"
publish = false

[dependencies]
ringbuf = "=0.3.3"
minirng = "=0.1.1"
minvect = "=0.1.4"
glow_mesh = "=0.1.4"
glow = { version = "=0.11.2", default-features = false }
cpal = { version = "=0.15.3", default-features = false }
