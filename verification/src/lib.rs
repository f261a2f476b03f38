//! Decisions of the CrossFire PH launcher: recognising Vanguard processes,
//! encoding strings for Win32, and the state machines behind the launcher
//! flow, the service stop routine and the guide window.
pub mod dialog;
pub mod launcher;
pub mod process;
pub mod service_stop;
pub mod text;
