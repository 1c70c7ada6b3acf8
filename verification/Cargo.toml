[package]
name = "game_loop"
version = "0.1.0"
edition = "2021"
publish = false

[dependencies]
winapi = { version = "0.3", features = ["combaseapi", "d3d11", "d3d11_1", "d3dcommon", "dxgi", "dxgi1_2", "dxgiformat", "dxgitype", "libloaderapi", "minwindef", "ntdef", "objbase", "profileapi", "unknwnbase", "windef", "winerror", "winnt", "winuser"] }
wio = "0.2"
