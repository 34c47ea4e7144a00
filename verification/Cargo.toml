[package]
name = "powered_tree"
version = "0.1.0"
edition = "2021"
publish = false

[dependencies]
anyhow = "=1.0.104"
bevy = { version = "=0.6.1", default-features = false, features = ["render", "png"] }
bevy-inspector-egui = "=0.9.0"
bevy_rapier2d = { version = "=0.12.1", features = ["render"] }
# bevy_rapier2d 0.12 is written against this release of rapier2d and does
# not build with the later ones of the same line, which cargo would pick.
rapier2d = { version = "=0.12.0-alpha.0", default-features = false, features = ["dim2", "f32"] }
ron = "=0.7.1"
serde = { version = "=1.0.229", features = ["derive"] }
