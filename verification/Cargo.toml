[package]
name = "kcshot"
version = "0.1.0"
edition = "2021"
publish = false

[dependencies]
rand = "=0.8.8"
regex = "=1.13.1"
pulldown-cmark = { version = "=0.12.2", default-features = false }
pulldown-cmark-escape = "=0.11.0"
stackblur-iter = "=0.2.0"
gtk4 = { version = "=0.9.7", features = ["v4_6"] }
gdk4-x11 = "=0.9.6"
cairo-rs = { version = "=0.20.12", features = ["png", "xcb"] }
pangocairo = "0.20"
xcb = { version = "=1.7.1", features = ["randr", "shape", "xfixes"] }
diesel = { version = "=2.3.14", features = ["sqlite"] }
xdg = "=2.5.2"
tokio = { version = "=1.54.1", features = ["rt-multi-thread", "sync"] }
tracing = "=0.1.44"
tracing-subscriber = { version = "=0.3.23", features = ["env-filter"] }
chrono = "=0.4.45"
thiserror = "=1.0.69"
serde = { version = "=1.0.229", features = ["derive"] }
serde_json = "=1.0.154"
ksni = "=0.3.7"
ashpd = { version = "=0.10.3", default-features = false, features = ["tokio"] }
