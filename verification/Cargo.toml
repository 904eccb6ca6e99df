[package]
name = "present_loop"
version = "0.1.0"
edition = "2021"
publish = false

[dependencies]
mustache = "0.9"
pulldown-cmark = "0.9"
rouille = "3"
rand = "0.8"
vulkano = "0.33"
vulkano-win = "0.33"
winit = "0.28"
