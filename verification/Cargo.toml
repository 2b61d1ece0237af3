[package]
name = "charabia"
version = "0.1.0"
edition = "2021"
publish = false

[dependencies]
fst = "=0.4.7"
unicode-normalization = "0.1"
whatlang = "=0.16.4"
