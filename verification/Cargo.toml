[package]
name = "linkedin_api_rs"
version = "0.1.0"
edition = "2021"
publish = false

[dependencies]
serde_json = "=1.0.151"
rand = "=0.10.3"
serde = { version = "*", features = ["derive"] }
reqwest = { version = "=0.13.5", default-features = false, features = ["cookies", "json", "form"] }
tokio = { version = "=1.53.2", features = ["rt", "time", "macros"] }
urlencoding = "*"
url = { version = "*", features = ["serde"] }
thiserror = "*"
time = { version = "=0.3.55", features = ["serde"] }
email_address = "*"
isolang = "*"
my_country = { version = "*", features = ["serde"] }
phonenumber = "*"
