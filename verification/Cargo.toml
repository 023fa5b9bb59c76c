[package]
name = "sdl_android_pack"
version = "0.1.0"
edition = "2021"
publish = false

[dependencies]
toml = "*"
fs_extra = "*"
symlink = "*"
