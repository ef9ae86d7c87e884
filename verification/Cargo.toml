[package]
name = "game_programs"
version = "0.1.0"
edition = "2021"
publish = false

[dependencies]
anchor-lang = { version = "0.30.1", features = ["init-if-needed"] }
anchor-spl = { version = "0.30.1", features = ["metadata"] }
mpl-token-metadata = "4"
spl-token-2022 = "3"
spl-token-metadata-interface = "0.3"
