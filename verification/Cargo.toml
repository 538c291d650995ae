[package]
name = "toolbox"
version = "0.1.0"
edition = "2021"
publish = false

[dependencies]
toml = "=1.2.1"
sysinfo = "=0.37.2"
sys-locale = "=0.3.2"
dirs = "=7.0.0"
anyhow = "=1.0.104"
env_logger = "=0.11.11"
winsafe = { version = "=0.0.29", features = ["gui"] }
windows = { version = "=0.58.0", features = ["Win32_Foundation", "Win32_Security", "Win32_Security_Authorization", "Win32_System_Threading", "Win32_System_RemoteDesktop", "Win32_System_Com", "Win32_UI_Shell", "Win32_UI_WindowsAndMessaging"] }
winreg = "=0.56.0"
elevate-ti = "=0.17.5"
