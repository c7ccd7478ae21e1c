[package]
name = "fastlogging"
version = "0.1.0"
edition = "2021"
publish = false

[dependencies]
regex = "*"
ring = "*"
rand = "0.8"
serde = { version = "*", features = ["derive"] }
serde_json = "*"
serde_yaml = "*"
quick-xml = { version = "*", features = ["serialize"] }
chrono = "*"
flume = "*"
gethostname = "*"
once_cell = "*"
parking_lot = "*"
thread-id = "*"
threadpool = "*"
num_cpus = "*"
termcolor = "*"
zip = { version = "*", default-features = false, features = ["deflate"] }
ureq = "*"
syslog = "*"
log = "*"
thiserror = "*"
