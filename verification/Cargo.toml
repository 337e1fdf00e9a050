[package]
name = "luatalk"
version = "0.3.0"
edition = "2021"
publish = false

[dependencies]
data-encoding = "=2.11.1"
url = "=2.5.8"
regex = "=1.13.1"
semver = "=1.0.28"
strfmt = "=0.2.6"
mlua = { version = "=0.12.2", features = ["lua55", "vendored", "serialize"] }
ureq = "=3.5.1"
clap = { version = "=4.6.7", features = ["derive"] }
clap_complete = "=4.6.11"
clap-stdin = "=0.8.1"
clap-verbosity-flag = "=3.0.4"
config = { version = "=0.15.27", default-features = false }
env_logger = "=0.11.11"
log = "=0.4.35"
miette = { version = "=7.6.0", features = ["fancy"] }
serde = { version = "=1.0.229", features = ["derive"] }
serde_json = "=1.0.154"
serde_repr = "=0.1.21"
sys-locale = "=0.3.2"
tempfile = "=3.27.0"
which = "=8.0.6"
xxhash-rust = { version = "=0.8.19", features = ["xxh3"] }
json-escape = "=0.3.1"
thiserror = "=2.0.21"
