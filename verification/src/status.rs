//! The status mirror: what an observer may know of the connected device.

use vstd::prelude::*;
use crate::types::{ChannelName, FaderName};

verus! {

/// USB product identifier of the full-size mixer.
pub const PID_GOXLR_FULL: u16 = 0x8fe0;

/// USB product identifier of the Mini.
pub const PID_GOXLR_MINI: u16 = 0x8fe4;

/// Which model is connected.
#[derive(Clone, Copy, Debug, PartialEq, Eq, Structural)]
pub enum DeviceType {
    Unknown,
    Full,
    Mini,
}

impl DeviceType {
    /// The model that a USB product identifier stands for: the two known
    /// identifiers name their model, every other value is `Unknown`.
    pub open spec fn of_product_id(product_id: u16) -> DeviceType {
        if product_id == PID_GOXLR_FULL {
            DeviceType::Full
        } else if product_id == PID_GOXLR_MINI {
            DeviceType::Mini
        } else {
            DeviceType::Unknown
        }
    }

    /// Classifies a USB product identifier.
    pub fn from_product_id(product_id: u16) -> (device_type: DeviceType)
        ensures
            device_type == DeviceType::of_product_id(product_id),
            device_type == DeviceType::Full <==> product_id == PID_GOXLR_FULL,
            device_type == DeviceType::Mini <==> product_id == PID_GOXLR_MINI,
    {
        if product_id == PID_GOXLR_FULL {
            DeviceType::Full
        } else if product_id == PID_GOXLR_MINI {
            DeviceType::Mini
        } else {
            DeviceType::Unknown
        }
    }
}

impl Default for DeviceType {
    fn default() -> (device_type: DeviceType)
        ensures
            device_type == DeviceType::Unknown,
    {
        DeviceType::Unknown
    }
}

/// What the USB layer reports of the device.
#[derive(Debug, PartialEq, Eq)]
pub struct UsbProductInformation {
    pub manufacturer_name: String,
    pub product_name: String,
    pub is_claimed: bool,
    pub has_kernel_driver_attached: bool,
    pub bus_number: u8,
    pub address: u8,
    pub version: (u8, u8, u8),
}

impl Clone for UsbProductInformation {
    fn clone(&self) -> (copy: UsbProductInformation)
        ensures
            copy == *self,
    {
        UsbProductInformation {
            manufacturer_name: self.manufacturer_name.clone(),
            product_name: self.product_name.clone(),
            is_claimed: self.is_claimed,
            has_kernel_driver_attached: self.has_kernel_driver_attached,
            bus_number: self.bus_number,
            address: self.address,
            version: self.version,
        }
    }
}

impl UsbProductInformation {
    /// Whether this information is `other` but for the kernel driver flag,
    /// which may or may not be the same.
    pub open spec fn differs_at_most_in_kernel_driver(self, other: UsbProductInformation) -> bool {
        self == (UsbProductInformation {
            has_kernel_driver_attached: self.has_kernel_driver_attached,
            ..other
        })
    }
}

/// The channel that each of the four faders carries.
#[derive(Clone, Copy, Debug, PartialEq, Eq, Structural)]
pub struct MixerStatus {
    pub fader_a_assignment: ChannelName,
    pub fader_b_assignment: ChannelName,
    pub fader_c_assignment: ChannelName,
    pub fader_d_assignment: ChannelName,
}

impl MixerStatus {
    /// The channel routed to `fader`.
    pub open spec fn channel(self, fader: FaderName) -> ChannelName {
        match fader {
            FaderName::A => self.fader_a_assignment,
            FaderName::B => self.fader_b_assignment,
            FaderName::C => self.fader_c_assignment,
            FaderName::D => self.fader_d_assignment,
        }
    }

    /// This routing with `fader` moved to `channel` and the other three
    /// faders as they are.
    pub open spec fn with(self, fader: FaderName, channel: ChannelName) -> MixerStatus {
        match fader {
            FaderName::A => MixerStatus { fader_a_assignment: channel, ..self },
            FaderName::B => MixerStatus { fader_b_assignment: channel, ..self },
            FaderName::C => MixerStatus { fader_c_assignment: channel, ..self },
            FaderName::D => MixerStatus { fader_d_assignment: channel, ..self },
        }
    }

    /// The routing that setting up the device establishes.
    pub open spec fn initial() -> MixerStatus {
        MixerStatus {
            fader_a_assignment: FaderName::A.default_channel(),
            fader_b_assignment: FaderName::B.default_channel(),
            fader_c_assignment: FaderName::C.default_channel(),
            fader_d_assignment: FaderName::D.default_channel(),
        }
    }

    /// The routing that setting up the device establishes: every fader on
    /// its default channel.
    pub fn defaults() -> (mixer: MixerStatus)
        ensures
            mixer == MixerStatus::initial(),
            forall|fader: FaderName| #[trigger] mixer.channel(fader) == fader.default_channel(),
    {
        MixerStatus {
            fader_a_assignment: FaderName::A.initial_channel(),
            fader_b_assignment: FaderName::B.initial_channel(),
            fader_c_assignment: FaderName::C.initial_channel(),
            fader_d_assignment: FaderName::D.initial_channel(),
        }
    }

    /// The channel routed to `fader`.
    pub fn assignment(&self, fader: FaderName) -> (channel: ChannelName)
        ensures
            channel == self.channel(fader),
    {
        match fader {
            FaderName::A => self.fader_a_assignment,
            FaderName::B => self.fader_b_assignment,
            FaderName::C => self.fader_c_assignment,
            FaderName::D => self.fader_d_assignment,
        }
    }

    /// Routes `fader` to `channel`; the other three faders keep theirs.
    pub fn assign(&mut self, fader: FaderName, channel: ChannelName)
        ensures
            *final(self) == old(self).with(fader, channel),
            final(self).channel(fader) == channel,
            forall|other: FaderName|
                other != fader ==> #[trigger] final(self).channel(other) == old(self).channel(other),
    {
        match fader {
            FaderName::A => self.fader_a_assignment = channel,
            FaderName::B => self.fader_b_assignment = channel,
            FaderName::C => self.fader_c_assignment = channel,
            FaderName::D => self.fader_d_assignment = channel,
        }
    }
}

/// A snapshot of everything an observer may know of the device.
#[derive(Debug, PartialEq, Eq)]
pub struct DeviceStatus {
    pub device_type: DeviceType,
    pub usb_device: Option<UsbProductInformation>,
    pub mixer: Option<MixerStatus>,
}

impl DeviceStatus {
    /// The status of a device that has not been set up: no model known, no
    /// USB information, no routing.
    pub open spec fn empty() -> DeviceStatus {
        DeviceStatus { device_type: DeviceType::Unknown, usb_device: None, mixer: None }
    }

    /// USB information and routing are present together or absent together.
    pub open spec fn all_or_nothing(self) -> bool {
        self.usb_device is Some <==> self.mixer is Some
    }

    /// Whether the device has been set up.
    pub open spec fn populated(self) -> bool {
        self.usb_device is Some && self.mixer is Some
    }

    /// This status with the kernel driver flag of its USB information, if
    /// it has any, set to `attached`, and nothing else changed.
    pub open spec fn with_kernel_driver(self, attached: bool) -> DeviceStatus {
        match self.usb_device {
            Some(usb) => DeviceStatus {
                usb_device: Some(
                    UsbProductInformation { has_kernel_driver_attached: attached, ..usb },
                ),
                ..self
            },
            None => self,
        }
    }

    /// This status with `fader` routed to `channel` in its routing, if it
    /// has any, and nothing else changed.
    pub open spec fn with_assignment(
        self,
        fader: FaderName,
        channel: ChannelName,
    ) -> DeviceStatus {
        match self.mixer {
            Some(mixer) => DeviceStatus { mixer: Some(mixer.with(fader, channel)), ..self },
            None => self,
        }
    }
}

impl DeviceStatus {
    /// This status with the kernel driver flag of its USB information, if
    /// it has any, set to `attached`.
    pub fn refresh_kernel_driver(self, attached: bool) -> (status: DeviceStatus)
        ensures
            status == self.with_kernel_driver(attached),
    {
        let mut status = self;
        status.usb_device = match status.usb_device {
            Some(usb) => {
                let mut usb = usb;
                usb.has_kernel_driver_attached = attached;
                Some(usb)
            },
            None => None,
        };
        status
    }

    /// This status with `fader` routed to `channel` in its routing, if it
    /// has any.
    pub fn assign_fader(self, fader: FaderName, channel: ChannelName) -> (status: DeviceStatus)
        ensures
            status == self.with_assignment(fader, channel),
    {
        let mut status = self;
        status.mixer = match status.mixer {
            Some(mixer) => {
                let mut mixer = mixer;
                mixer.assign(fader, channel);
                Some(mixer)
            },
            None => None,
        };
        status
    }
}

impl Default for DeviceStatus {
    fn default() -> (status: DeviceStatus)
        ensures
            status == DeviceStatus::empty(),
    {
        DeviceStatus { device_type: DeviceType::Unknown, usb_device: None, mixer: None }
    }
}

impl Clone for DeviceStatus {
    fn clone(&self) -> (copy: DeviceStatus)
        ensures
            copy == *self,
    {
        DeviceStatus {
            device_type: self.device_type,
            usb_device: match &self.usb_device {
                Some(usb) => Some(usb.clone()),
                None => None,
            },
            mixer: self.mixer,
        }
    }
}

} // verus!
