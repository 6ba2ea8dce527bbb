[package]
name = "frame_check_core"
version = "0.1.0"
edition = "2021"
publish = false

[dependencies]
get-size2 = "=0.10.0"
ruff_python_ast = "=0.0.5"
ruff_python_parser = "=0.0.5"
ruff_text_size = "=0.0.5"
zed_extension_api = "=0.7.0"
