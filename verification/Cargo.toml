[package]
name = "audio_dsp"
version = "0.1.0"
edition = "2021"
publish = false

[dependencies]
cpal = "0.15"
hound = "3.5"
rustfft = "6.2"
