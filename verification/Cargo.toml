[package]
name = "scene_builder"
version = "0.1.0"
edition = "2021"
publish = false

[dependencies]
pathfinder_geometry = "=0.5.1"
pathfinder_content = "*"
rayon = "=1.12.0"
