[package]
name = "aws_region_nearby"
version = "0.1.0"
edition = "2021"
publish = false

[dependencies]
geoutils = "0.5"
