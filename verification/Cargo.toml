[package]
name = "gworkerd"
version = "0.5.0"
edition = "2021"
publish = false

[dependencies]
chrono = "0.4"
rustc-serialize = "0.3"
stomp = "*"
mysql = "*"
iron = "0.6"
router = "0.6"
mount = "0.4"
staticfile = "0.5"
urlencoded = "0.6"
hyper = "0.10"
docopt = "1"
flexi_logger = "*"
log = "0.4"
