[package]
name = "dscp_qos"
version = "0.1.0"
edition = "2021"
publish = false

[dependencies]
pyo3 = "0.20"
windows = { version = "0.48", features = ["Win32_Foundation", "Win32_Networking_WinSock", "Win32_NetworkManagement_QoS", "Win32_System_Diagnostics_Debug"] }
