[package]
name = "hello_world"
version = "0.1.0"
edition = "2021"
publish = false

[dependencies]
borsh = { version = "=1.8.1", features = ["derive"] }
bytemuck = { version = "=1.25.2", features = ["derive", "min_const_generics"] }
num-derive = "=0.4.2"
num-traits = "=0.2.19"
shank = "=0.4.9"
solana-program = "=2.3.0"
thiserror = "=1.0.69"
