[package]
name = "temp_hum"
version = "0.1.0"
edition = "2021"
publish = false

[dependencies]
chrono = "0.4"
dht22_pi = "*"
log = "0.4"
plotters = { version = "0.3", default-features = false, features = ["svg_backend", "chrono", "line_series"] }
simplelog = "*"
tiny_http = "*"
