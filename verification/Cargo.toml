[package]
name = "ap_bridge"
version = "0.1.0"
edition = "2021"
publish = false

[dependencies]
base64 = "0.21"
chrono = "0.4"
http = "0.2"
hyper = { version = "0.14", features = ["full"] }
pem = "3"
pkcs1 = { version = "0.7", features = ["pem", "std"] }
rand = "0.8"
reqwest = { version = "0.11", features = ["blocking"] }
route-recognizer = "0.3"
rsa = { version = "0.9", features = ["sha2"] }
rusqlite = "0.31"
serde = { version = "1", features = ["derive"] }
serde_json = "1"
sha1 = "0.10"
sha2 = { version = "0.10", features = ["oid"] }
thiserror = "1"
tokio = { version = "1", features = ["full"] }
tungstenite = { version = "0.20", features = ["native-tls"] }
url = "2"
urlencoding = "2"
void = "1"
