[package]
name = "riot_wrappers"
version = "0.1.0"
edition = "2021"
publish = false

[dependencies]
coap-handler = "0.1.6"
coap-message = "0.2.3"
coap-numbers = "=0.2.11"
riot-rs-core = "=0.0.0"
riot-sys = "=0.7.16"
