[package]
name = "ui-events"
version = "0.1.0"
edition = "2021"
publish = false

[dependencies]
dpi = "0.1"
web-sys = { version = "0.3", features = ["Element", "Event", "MouseEvent", "PointerEvent", "Touch", "TouchEvent", "TouchList", "WheelEvent"] }
js-sys = "0.3"
libm = "0.2"
