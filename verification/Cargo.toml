[package]
name = "signal-visualizer"
version = "0.1.0"
edition = "2021"
publish = false

[dependencies]
avr-device = { version = "0.5", features = ["atmega328p"] }
display-interface-spi = "0.4"
embedded-graphics = "0.8"
embedded-hal = "1"
panic-halt = "0.2"
st7789 = "0.7"
ufmt = "0.2"
