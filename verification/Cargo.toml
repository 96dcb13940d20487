[package]
name = "clatune"
version = "0.1.0"
edition = "2021"
publish = false

[dependencies]
ratatui = "=0.30.2"
crossterm = "=0.29.0"
color-eyre = "=0.6.5"
cpal = { version = "=0.18.2", features = ["pipewire", "pulseaudio"] }
pitch_calc = "=0.12.0"
pitch-detection = "=0.3.0"
tui-big-text = "=0.8.10"
derive_setters = "=0.1.9"
