[package]
name = "metta_kg"
version = "0.1.0"
edition = "2021"
publish = false

[dependencies]
urlencoding = "2"
url = "2"
reqwest = { version = "0.12", default-features = false, features = ["json"] }
tokio = { version = "1", features = ["rt-multi-thread", "macros", "process", "time"] }
clap = { version = "4", features = ["derive"] }
serde = { version = "1", features = ["derive"] }
once_cell = "1"
dotenv = "0.15"
tempfile = "3"
mime_guess = "2"
diesel = { version = "2", default-features = false, features = ["postgres"] }
