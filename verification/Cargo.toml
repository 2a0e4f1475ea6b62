[package]
name = "dma_transfer"
version = "0.1.0"
edition = "2021"
publish = false

[dependencies]
as-slice = "=0.1.5"
cortex-m = "=0.6.7"
cortex-m-semihosting = "=0.3.7"
