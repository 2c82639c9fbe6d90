[package]
name = "rybot2"
version = "0.1.0"
edition = "2021"
publish = false

[dependencies]
image = { version = "0.24", default-features = false, features = ["png"] }
z80emu = "*"
tms9918a_emu = "*"
libwebp = "0.1"
reqwest = "0.11"
tempfile = "3"
error-chain = "0.12"
tracing-subscriber = "0.3"
tokio = { version = "1", features = ["macros", "rt-multi-thread"] }
serenity = { version = "0.10", features = ["voice"] }
songbird = { version = "0.2", features = ["builtin-queue"] }
