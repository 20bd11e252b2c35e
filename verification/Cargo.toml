[package]
name = "scandoc"
version = "0.1.0"
edition = "2021"
publish = false

[dependencies]
anyhow = "1"
indicatif = "*"
printpdf = "0.6"
requestty = "*"
sane-scan = "*"
