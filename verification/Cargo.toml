[package]
name = "webrtc_hub"
version = "0.1.0"
edition = "2021"
publish = false

[dependencies]
borsh = "=0.6.2"
near-bindgen = "=0.6.0"
sha2 = "=0.8.2"
# The derive crates of borsh 0.6 and near-bindgen 0.6 import `syn::export`,
# which later releases of syn 1 no longer have.
syn = "=1.0.57"
wee_alloc = "=0.4.5"
