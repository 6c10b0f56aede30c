[package]
name = "blahaj_site"
version = "0.1.0"
edition = "2021"
publish = false

[dependencies]
chrono = "=0.4.45"
include-repo = "=0.1.0"
iron = "=0.6.1"
lazy_static = "=1.5.1"
log = "=0.4.34"
mount = "=0.4.0"
rand = "=0.4.6"
router = "=0.6.0"
serde = "=1.0.229"
serde_json = "=1.0.154"
staticfile = "=0.5.0"
urlencoded = "=0.6.0"
