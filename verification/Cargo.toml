[package]
name = "phi_bitwarden_helper"
version = "0.1.0"
edition = "2021"
publish = false

[dependencies]
bitwarden-core = { version = "=3.0.0", features = ["internal"] }
regex = "=1.13.1"
serde_json = "=1.0.154"
# The program in app/ alone runs on it.
tokio = { version = "=1.54.1", features = ["rt-multi-thread"] }

# Called by nothing here: bitwarden-core 3.0.0 builds with these pre-releases and
# not with the ones that came after them.
ml-dsa = "=0.1.0-rc.8"
pkcs8 = "=0.11.0-rc.11"
rsa = "=0.10.0-rc.17"
signature = "=3.0.0-rc.10"
spki = "=0.8.0"

[lints.rust]
unexpected_cfgs = { level = "warn", check-cfg = ["cfg(bitwarden_sdk)"] }
