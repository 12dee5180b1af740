[package]
name = "pdfgen"
version = "0.1.0"
edition = "2021"
publish = false

[dependencies]
bytesize = "=1.1.0"
clap = { version = "=4.6.7", features = ["derive"] }
csscolorparser = "=0.9.0"
pdf-canvas = "=0.7.0"
rand = "=0.10.3"
