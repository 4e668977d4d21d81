[package]
name = "jj_git_util"
version = "0.1.0"
edition = "2021"
publish = false

[dependencies]
unicode-width = "*"
rpassword = "*"
dirs = "*"
