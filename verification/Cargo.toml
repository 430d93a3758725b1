[package]
name = "tokenviz"
version = "0.1.0"
edition = "2021"
publish = false

[dependencies]
charabia = { version = "=0.10.0", default-features = false, features = ["chinese", "hebrew", "thai", "greek", "khmer", "vietnamese", "swedish-recomposition", "turkish", "german-segmentation"] }
rand = "=0.10.3"
toml = "=1.1.6"
