[package]
name = "blog_os"
version = "0.1.0"
edition = "2021"
publish = false

[dependencies]
x86_64 = "=0.14.13"
pc-keyboard = "=0.5.1"
pic8259 = "=0.10.4"
spin = "=0.9.9"
volatile = "=0.2.7"
lazy_static = { version = "=1.5.1", features = ["spin_no_std"] }
uart_16550 = "=0.2.19"
