[package]
name = "poseidon_ro"
version = "0.1.0"
edition = "2021"
publish = false

[dependencies]
bellpepper-core = "0.4"
bellpepper = "0.4"
ff = { version = "0.13", features = ["bits"] }
generic-array = "1"
neptune = { version = "13", default-features = false }
serde = { version = "1", features = ["derive"] }
thiserror = "1"
halo2curves = { version = "0.6", features = ["bits", "derive_serde"] }
pasta_curves = { version = "0.5", features = ["bits", "serde"] }

[dev-dependencies]
rand = "0.8"
rand_core = "0.6"
bincode = "1"
serde_json = "1"
