[package]
name = "geiger"
version = "0.1.0"
edition = "2021"
publish = false

[dependencies]
embassy-executor = "*"
embassy-time = "*"
esp-alloc = "*"
esp-bootloader-esp-idf = "*"
esp-hal = "*"
esp-hal-embassy = "*"
esp-println = "*"
log = "*"
static_cell = "*"
