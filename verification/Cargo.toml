[package]
name = "rs485_node"
version = "0.1.0"
edition = "2021"
publish = false

[dependencies]
bounded-integer = { version = "=0.5.8", default-features = false, features = ["types"] }
fugit = "=0.3.9"
heapless = "=0.7.17"
nb = "=1.1.0"
smart-leds = "=0.3.0"
cortex-m = "=0.7.10"
cortex-m-rtic = "=1.1.4"
systick-monotonic = "=1.0.1"
panic-semihosting = "=0.6.0"
stm32g0xx-hal = { version = "=0.2.0", features = ["stm32g030", "rt"] }
ws2812-uart = "0.1"
