[package]
name = "modal_editor"
version = "0.1.0"
edition = "2021"
publish = false

[dependencies]
tui-textarea = "=0.7.0"
ratatui = { version = "=0.29.0", features = ["unstable-rendered-line-info"] }
crossterm = "=0.28.1"
tokio = { version = "=1.54.1", features = ["sync"] }
tui-widget-list = "=0.13.3"
