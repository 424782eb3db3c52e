[package]
name = "opentelemetry-stackdriver"
version = "0.1.0"
edition = "2021"
publish = false

[dependencies]
async-trait = "=0.1.92"
futures = "=0.3.34"
hex = "=0.4.3"
http = "=0.2.12"
hyper = "=0.13.10"
hyper-rustls = "=0.20.0"
opentelemetry = "=0.7.0"
prost = "=0.6.1"
prost-types = "=0.6.1"
rustls = "=0.18.1"
tonic = { version = "=0.3.1", features = ["tls", "transport"] }
webpki-roots = "=0.20.0"
yup-oauth2 = "=4.1.4"
