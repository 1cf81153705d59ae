[package]
name = "wezlix"
version = "0.1.0"
edition = "2021"
publish = false

[dependencies]
toml = "*"
clap = { version = "*", features = ["derive", "env"] }
home = "*"
xdg = "*"
apple-bundle = "*"
fs_extra = "*"
resvg = "*"
tiny-skia = "*"
usvg = "*"
