[package]
name = "cxx_qt_gen"
version = "0.1.0"
edition = "2021"
publish = false

[dependencies]
convert_case = "0.4"
proc-macro2 = "1"
quote = "1"
syn = { version = "1", features = ["full", "extra-traits"] }
