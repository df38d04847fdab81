[package]
name = "okayu_pp_ffi"
version = "0.1.0"
edition = "2021"
publish = false

[dependencies]
rosu-pp = "=1.1.0"
interoptopus = "=0.14.27"
bytemuck = "1"
