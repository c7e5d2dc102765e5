[package]
name = "minimal_elf"
version = "0.1.0"
edition = "2021"
publish = false

[dependencies]
iced-x86 = { version = "*", default-features = false, features = ["std", "code_asm"] }
