//! Wi-Fi management for macOS: the decisions behind a terminal interface, a
//! scan daemon and a speed test.

pub mod app;
pub mod cli;
pub mod client;
pub mod config;
pub mod corewlan;
pub mod daemon;
pub mod dispatch;
pub mod event;
pub mod handler;
pub mod input;
pub mod install;
pub mod ipc;
pub mod json;
pub mod keychain;
pub mod keychain_grant;
pub mod location;
pub mod logging;
pub mod networksetup;
pub mod notification;
pub mod paths;
pub mod privileged;
pub mod qr;
pub mod scan;
pub mod signal;
pub mod speedtest;
pub mod text;
pub mod theme;
pub mod time;
pub mod ui;
pub mod worker;
