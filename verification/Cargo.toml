[package]
name = "video_note_bot"
version = "0.1.0"
edition = "2021"
publish = false

[dependencies]
chrono = "=0.4.45"
dotenv = "=0.15.0"
dptree = "=0.5.1"
takecell = "=0.1.1"
teloxide = { version = "=0.17.0", default-features = false, features = ["macros", "ctrlc_handler"] }
tokio = { version = "=1.53.2", features = ["macros", "rt-multi-thread", "fs"] }
