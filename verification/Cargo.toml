[package]
name = "pixu"
version = "0.1.0"
edition = "2021"
publish = false

[dependencies]
base32 = "=0.4.0"
base64 = "0.22"
byteorder = "=1.5.0"
chrono = "=0.4.45"
cookie = "=0.18.2"
diesel = { version = "2.1", default-features = false, features = ["sqlite", "r2d2"] }
hyper = { version = "0.14", features = ["server", "http1", "tcp"] }
image = { version = "0.24", default-features = false, features = ["jpeg"] }
jsonwebtoken = "=9.3.1"
kamadak-exif = "0.5"
lettre = { version = "0.11", default-features = false, features = ["builder", "smtp-transport", "native-tls"] }
rand = { version = "=0.8.8", features = ["small_rng"] }
rayon = "1"
serde = { version = "1", features = ["derive"] }
serde_json = "=1.0.154"
serde_urlencoded = "=0.7.1"
tokio = { version = "1", features = ["rt-multi-thread", "net"] }
toml = "0.8"
