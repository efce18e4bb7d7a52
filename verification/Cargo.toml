[package]
name = "monoio_driver"
version = "0.1.0"
edition = "2021"
publish = false

[dependencies]
mio = { version = "1", features = ["os-poll", "os-ext", "net"] }
io-uring = "0.7"
libc = "0.2"
flume = "0.11"
rustc-hash = "2"
once_cell = "1"
scoped-tls = "1"
socket2 = { version = "0.5", features = ["all"] }
cfg-if = "1"
windows-sys = { version = "0.52", features = ["Win32_Foundation", "Win32_System_IO"] }
