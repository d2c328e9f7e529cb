[package]
name = "watchdoc"
version = "0.1.0"
edition = "2021"
publish = false

[dependencies]
anyhow = "1"
axum = "0.6"
cargo-config2 = "*"
cargo_metadata = "*"
clap = { version = "4", features = ["derive"] }
globset = "0.4"
ignore-files = "1"
log = "0.4"
opener = "*"
portpicker = "*"
stderrlog = "*"
tokio = { version = "1", features = ["macros", "rt-multi-thread"] }
tower-http = { version = "0.4", features = ["fs"] }
tower-livereload = "0.8"
watchexec = "2"
watchexec-filterer-globset = "1"
