[package]
name = "wiki_to_md"
version = "0.1.0"
edition = "2021"
publish = false

[dependencies]
markdown-gen = "*"
pathdiff = "*"
quoted-string = "*"
rayon = "*"
scraper = "*"
urlencoding = "*"
