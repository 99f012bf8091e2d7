[package]
name = "dyn_quantity"
version = "0.1.0"
edition = "2021"
publish = false

[dependencies]
num = "0.4"
serde = { version = "1", features = ["derive"] }
uom = { version = "*", features = ["complex64"] }
deserialize_untagged_verbose_error = "*"
logos = "*"
