[package]
name = "game_engine"
version = "0.1.0"
edition = "2021"
publish = false

[dependencies]
cgmath = "=0.17.0"
gl = "=0.14.0"
glfw = "=0.63.0"
image = "=0.22.5"
log = "=0.4.34"
tobj = "=1.0.0"
