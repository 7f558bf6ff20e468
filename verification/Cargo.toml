[package]
name = "mio_byte_fifo"
version = "0.1.0"
edition = "2021"

[dependencies]
mio = "0.6"
rb = "0.3"
