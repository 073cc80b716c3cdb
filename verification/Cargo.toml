[package]
name = "file_preview"
version = "0.1.0"
edition = "2021"
publish = false

[dependencies]
gio = "0.15"
gtk = "0.15"
log = "0.4"
mime_guess = "2"
relm = "0.23"
relm-derive = "0.23"
