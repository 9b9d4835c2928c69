[package]
name = "servo_media_mpv"
version = "0.1.0"
edition = "2021"
publish = false

[dependencies]
khronos-egl = { version = "=6.0.0", features = ["dynamic"] }
libloading = "0.8"
libmpv2 = "=7.0.0"
libmpv2-sys = "=4.0.1"
log = "0.4"
servo-base = "=0.6.0"
servo-media = "=0.6.0"
servo-media-audio = "=0.6.0"
servo-media-player = "=0.6.0"
servo-media-streams = "=0.6.0"
servo-media-traits = "=0.6.0"
servo-media-webrtc = "=0.6.0"
