//! The data that flows through the hub, and the device capability.
pub mod device;
pub mod event;
