[package]
name = "interlock"
version = "0.1.0"
edition = "2021"
publish = false

[dependencies]
regex = "=1.13.1"
serde = { version = "=1.0.229", features = ["derive"] }
serde_json = "=1.0.154"
uuid = { version = "=1.29.0", features = ["v4"] }
pulldown-cmark = { version = "=0.12.2", default-features = false }
docx-rs = "=0.4.22"
image = { version = "=0.25.10", default-features = false, features = ["gif", "jpeg", "png", "bmp", "tiff"] }
base64 = "=0.22.1"
anyhow = "=1.0.104"
async-trait = "=0.1.92"
tokio = { version = "=1.54.1", features = ["rt-multi-thread", "macros", "time"] }
reqwest = { version = "=0.12.28", default-features = false, features = ["json"] }
calamine = "=0.38.0"
rust_xlsxwriter = "=0.102.0"
zip = { version = "=9.2.2", default-features = false, features = ["deflate"] }
quick-xml = "=0.42.0"
lopdf = { version = "=0.46.0", default-features = false }
object_store = { version = "=0.14.2", default-features = false, features = ["fs"] }
tempfile = "=3.27.0"
genpdf = "0.2"
