[package]
name = "nv_audio_fx_vst"
version = "0.1.0"
edition = "2021"
publish = false

[dependencies]
libloading = "0.8"
nih_plug_egui = "0.1.2"
