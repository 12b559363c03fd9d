[package]
name = "mojxml"
version = "0.1.0"
edition = "2021"
publish = false

[dependencies]
quick-xml = "*"
hashbrown = "*"
zip = "*"
geo = "*"
geozero = "*"
flatgeobuf = "*"
rayon = "*"
jprect = "*"
clap = { version = "*", features = ["derive"] }
