[package]
name = "brickbonker"
version = "0.1.0"
edition = "2021"
publish = false

[dependencies]
specs = { version = "=0.16.1", features = ["storage-event-control"] }
shrev = "=1.1.3"
nalgebra = "=0.29.0"
ncollide2d = "=0.32.0"
nphysics2d = "=0.24.0"
rand = "=0.7.3"
winit = "=0.21.0"
time = "=0.2.27"
image = "=0.23.14"
