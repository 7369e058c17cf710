[package]
name = "mataroa-cli"
version = "0.1.0"
edition = "2021"
publish = false

[dependencies]
chrono = "=0.4.45"
clap = { version = "=4.6.7", features = ["derive", "env"] }
human-date-parser = "=0.3.1"
kommandozeile = "=0.1.1"
pulldown-cmark = { version = "=0.12.2", default-features = false }
pulldown-cmark-frontmatter = "=0.4.0"
secrecy = "=0.8.0"
serde = { version = "=1.0.229", features = ["derive"] }
serde_json = "=1.0.154"
serde_yaml = "=0.9.34"
shlex = "=1.3.0"
ureq = { version = "=2.12.1", features = ["json"] }
