[package]
name = "androidsink"
version = "0.1.0"
edition = "2021"
publish = false

[dependencies]
anyhow = "1"
byte-slice-cast = "1"
derive_more = "0.99"
glib = "0.10"
gstreamer = "0.16"
gstreamer-app = "0.16"
gstreamer-audio = "0.16"
jni = "0.17"
libc = "0.2"
once_cell = "1"
