//! Smart-house devices and the small framed text protocol they are driven by.

pub mod client;
pub mod datagram;
pub mod devices;
pub mod error;
pub mod frame;
pub mod gui;
pub mod handshake;
pub mod house;
pub mod reports;
pub mod session;
pub mod text;
