[package]
name = "dwarf_sections"
version = "0.1.0"
edition = "2021"
publish = false

[dependencies]
zstd = "*"
miniz_oxide = "*"
gimli = "*"
thiserror = "*"
