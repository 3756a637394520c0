[package]
name = "jsnap"
version = "0.1.0"
edition = "2021"
publish = false

[dependencies]
byteordered = "0.6"
clap = "4"
dirs = "*"
exitcode = "1"
indicatif = "0.17"
rusqlite = { version = "*", features = ["bundled"] }
rustyline = { version = "*", features = ["derive", "with-sqlite-history"] }
