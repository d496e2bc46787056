//! A verified cache of a programmable keyboard's configuration state, kept in
//! step with the device over two channels: active updates, which are sent back
//! to the device, and passive updates reported by the device, which never are.

pub mod cmd_response;
pub mod raw;
pub mod sayo_device;
pub mod session;
pub mod structure;

pub use cmd_response::DeviceInfoDiff;
pub use sayo_device::SayoDevice;
pub use structure::{DeviceInfo, KeyData, KeyInfo};
