[package]
name = "enter_text_lars"
version = "0.1.0"
edition = "2021"
publish = false

[dependencies]
uuid = "1"
scylla = "0.14"
actix-web = "4"
actix-files = "0.6"
leptos = { version = "0.7", features = ["ssr"] }
leptos_actix = "0.7"
leptos_meta = { version = "0.7", features = ["ssr"] }
leptos_router = { version = "0.7", features = ["ssr"] }
