[package]
name = "radyo_fenomen"
version = "0.1.0"
edition = "2021"
publish = false

[dependencies]
serde = { version = "=1.0.229", features = ["derive"] }
serde_json = "=1.0.154"
reqwest = { version = "=0.12.28", default-features = false }
futures = "=0.3.34"
log = "=0.4.35"
wasm-bindgen = "=0.2.130"
wasm-bindgen-futures = "=0.4.80"
js-sys = { version = "=0.3.107", features = ["unsafe-eval"] }
web-sys = { version = "=0.3.107", features = ["HtmlInputElement", "InputEvent", "EventTarget"] }
serde-wasm-bindgen = "=0.6.5"
gloo-timers = "=0.3.0"
yew = { version = "=0.21.0", features = ["csr"] }
yew_icons = { version = "=0.8.0", features = ["HeroiconsSolidPause", "HeroiconsSolidPlay"] }
console_error_panic_hook = "=0.1.7"
