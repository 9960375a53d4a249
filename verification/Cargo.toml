[package]
name = "sr25519_core"
version = "0.1.0"
edition = "2021"
publish = false

[dependencies]
schnorrkel = "*"
merlin = "*"
robusta_jni = "*"
