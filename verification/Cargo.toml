[package]
name = "rtmp_stream_lib"
version = "0.1.0"
edition = "2021"
publish = false

[dependencies]
rml_rtmp = "=0.8.0"
rml_amf0 = "=0.3.0"
mio = "=0.6.23"
slab = "=0.4.12"
crossbeam-channel = "=0.5.17"
rscam = "=0.5.5"
openh264 = "=0.5.0"
