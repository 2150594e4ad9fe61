[package]
name = "axi_uart_bridge"
version = "0.1.0"
edition = "2021"
publish = false

[dependencies]
getopts = "*"
memmap = "*"
num-traits = "*"
page_size = "*"
serialport = { version = "*", default-features = false }
volatile = "0.4"
