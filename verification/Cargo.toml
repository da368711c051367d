[package]
name = "hab_telemetry"
version = "0.1.0"
edition = "2021"
publish = false

[dependencies]
num-bigint = "*"
chrono = "*"
nmea = "*"
log = "*"
ftail = "*"
rpi_embedded = "*"
