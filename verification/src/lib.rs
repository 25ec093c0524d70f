//! A transport-free controller for one GoXLR mixer.
//!
//! The controller keeps the status mirror of a connected device: which
//! model it is, what the USB layer says of it, and which channel each of
//! its four faders carries. It sets the device up, carries out commands and
//! monitors the device's inputs, and it does so without touching the
//! hardware. Whoever owns the device handle begins an operation on a
//! [`Device`], makes the [`TransportCall`] that the returned [`Step`] asks
//! for, hands the [`TransportReply`] to [`Device::resume`], and goes on
//! until the step is [`Step::Done`].
//!
//! The mirror follows the device and never runs ahead of it: nothing enters
//! the status before the device has acknowledged it, and USB information
//! and routing enter it together or not at all.

pub mod activity;
pub mod device;
pub mod laws;
pub mod model;
pub mod status;
pub mod transport;
pub mod types;

pub use crate::activity::{DeviceError, Outcome, Step};
pub use crate::device::Device;
pub use crate::status::{DeviceStatus, DeviceType, MixerStatus, UsbProductInformation};
pub use crate::transport::{ButtonStates, TransportCall, TransportReply};
pub use crate::types::{ChannelName, FaderName, GoXLRCommand};
