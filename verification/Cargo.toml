[package]
name = "ble_session"
version = "0.1.0"
edition = "2021"
publish = false

[dependencies]
send_wrapper = "0.6"
windows = { version = "0.58", features = ["Devices_Bluetooth", "Devices_Bluetooth_Advertisement", "Devices_Bluetooth_GenericAttributeProfile", "Foundation", "Foundation_Collections", "Security_Cryptography", "Storage_Streams"] }
