[package]
name = "ultra"
version = "0.1.0"
edition = "2021"
publish = false

[dependencies]
anyhow = "1"
backtrace = "0.3"
bincode = "1.3"
chrono = "0.4"
clap = "2.33"
crossterm = "0.18"
dirs-next = "2"
fern = "0.6"
id3 = "0.6"
lazy_static = "1.4"
log = "0.4"
metaflac = "0.2"
notify = "4.0"
rand = "0.8"
rayon = "1"
rodio = "0.13"
rusqlite = "0.24"
serde = { version = "1", features = ["derive"] }
thiserror = "1"
toml = "0.5"
tui = { version = "0.14", default-features = false, features = ["crossterm"] }
unicode-width = "0.1"
walkdir = "2"
