[package]
name = "oidn_wgpu_interop"
version = "0.1.0"
edition = "2021"
publish = false

[dependencies]
wgpu = "*"
ash = "*"
oidn = "*"
async-std = "*"
windows = { version = "*", features = ["Win32_Foundation", "Win32_Graphics_Direct3D12", "Win32_Graphics_Dxgi_Common"] }
