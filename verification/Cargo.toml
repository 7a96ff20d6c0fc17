[package]
name = "webview_container"
version = "0.1.0"
edition = "2021"
publish = false

[dependencies]
native-windows-gui = "1"
webview2 = "0.1"
winapi = { version = "0.3", features = ["winuser", "windef"] }
futures = "0.3"
deferred-future = "*"
