[package]
name = "readings-probe"
version = "0.1.0"
edition = "2021"
publish = false

[dependencies]
num_cpus = "=1.17.0"
libc = "=0.2.191"
lazy_static = "=1.5.1"
thiserror = "=1.0.69"
clap = "=2.34.0"
plotters = { version = "=0.2.15", default-features = false, features = ["bitmap", "image_encoder", "area_series", "line_series"] }
winapi = { version = "=0.3.9", features = ["minwindef", "processthreadsapi", "psapi"] }
