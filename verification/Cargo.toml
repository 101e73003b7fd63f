[package]
name = "sensor_relay"
version = "0.1.0"
edition = "2021"
publish = false

[dependencies]
bme680 = "=0.5.1"
dotenv_codegen = "=0.15.0"
futures-preview = { version = "=0.3.0-alpha.19", features = ["compat"] }
futures-timer = "=0.3.0"
futures-util-preview = { version = "=0.3.0-alpha.19", features = ["compat"] }
influent = "=0.5.3"
linux-embedded-hal = "0.3"
runtime = "=0.3.0-alpha.8"
