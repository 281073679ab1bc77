//! Verified core of the OpenHarmony platform layer of a remote-desktop client.

pub mod audio;
pub mod capture;
pub mod error;
pub mod kcp_stream;
pub mod keyboard;
pub mod message;
pub mod platform;
pub mod ring;
pub mod text;
pub mod ui_cm_interface;
