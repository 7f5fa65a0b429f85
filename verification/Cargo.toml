[package]
name = "render_core"
version = "0.1.0"
edition = "2021"
publish = false

[dependencies]
arrayvec = "0.4"
gfx-hal = "0.2"
gfx-backend-vulkan = "0.2"
shaderc = "0.6"
winit = "0.19"
