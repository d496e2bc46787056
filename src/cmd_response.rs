//! Passive updates: records that the device reports on its own (broadcasts,
//! command responses) are merged into the cache and never sent back.

pub mod device_info;
pub mod traits;

pub use device_info::DeviceInfoDiff;
pub use traits::CmdResponseObject;
