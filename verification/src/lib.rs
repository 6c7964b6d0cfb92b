//! Sunshift: colour-temperature state synchronisation and tray icon rendering.

pub mod async_client;
pub mod binary32;
pub mod canvas;
pub mod dbus;
pub mod error;
pub mod icon;
pub mod relay;
pub mod text;
pub mod tray;
