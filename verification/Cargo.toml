[package]
name = "cfph_launcher"
version = "0.1.0"
edition = "2021"
publish = false

[dependencies]
windows = { version = "0.61", features = ["Win32_Foundation", "Win32_Graphics_Gdi", "Win32_System_Diagnostics_ToolHelp", "Win32_System_LibraryLoader", "Win32_System_Services", "Win32_UI_WindowsAndMessaging"] }
