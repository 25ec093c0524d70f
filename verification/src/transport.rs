//! The conversation with the USB transport.
//!
//! The controller never touches the hardware. It names the call that the
//! owner of the device handle is to make next, and is handed what the call
//! gave back.

use vstd::prelude::*;
use crate::types::{ChannelName, FaderName};

verus! {

/// How long one wait for a device interrupt may last, in seconds.
pub const INTERRUPT_WAIT_SECONDS: u64 = 1;

/// Which buttons the device reported as held down, one bit per button.
#[derive(Clone, Copy, Debug, PartialEq, Eq, Structural)]
pub struct ButtonStates {
    pub pressed: u32,
}

/// A call that the owner of the device handle makes for the controller.
#[derive(Clone, Copy, Debug, PartialEq, Eq, Structural)]
pub enum TransportCall {
    /// Read the device descriptor: product identifier and device version.
    Descriptor,
    /// Read the manufacturer's name.
    Manufacturer,
    /// Read the product's name.
    ProductName,
    /// Ask whether this process has claimed the device.
    IsClaimed,
    /// Ask whether a kernel driver is attached to the device.
    KernelDriverActive,
    /// Read the number of the bus that the device sits on.
    BusNumber,
    /// Read the device's address on its bus.
    Address,
    /// Route the fader to the channel.
    SetFader(FaderName, ChannelName),
    /// Wait for an interrupt from the device, for `seconds` at most.
    AwaitInterrupt { seconds: u64 },
    /// Read which buttons are held down.
    ButtonStates,
}

/// What a call gave back.
#[derive(Debug, PartialEq, Eq)]
pub enum TransportReply {
    /// The descriptor's product identifier and device version.
    Descriptor { product_id: u16, version: (u8, u8, u8) },
    /// A name.
    Text(String),
    /// The answer to a yes-or-no question; for a wait, whether an interrupt
    /// arrived in time.
    Flag(bool),
    /// A bus number or an address.
    Number(u8),
    /// The call succeeded and has nothing to report.
    Acknowledged,
    /// The buttons held down.
    Buttons(ButtonStates),
    /// The call failed, with the transport's description of the failure.
    Failed(String),
}

impl TransportCall {
    /// Whether `reply` is of the kind that answers this call: a descriptor
    /// for the descriptor, a text for a name, a flag for a question or a
    /// wait, a number for the bus number or the address, an acknowledgement
    /// for a fader assignment, button states for the buttons.
    pub open spec fn answered_by(self, reply: TransportReply) -> bool {
        match self {
            TransportCall::Descriptor => reply is Descriptor,
            TransportCall::Manufacturer | TransportCall::ProductName => reply is Text,
            TransportCall::IsClaimed
            | TransportCall::KernelDriverActive
            | TransportCall::AwaitInterrupt { .. } => reply is Flag,
            TransportCall::BusNumber | TransportCall::Address => reply is Number,
            TransportCall::SetFader(..) => reply is Acknowledged,
            TransportCall::ButtonStates => reply is Buttons,
        }
    }
}

} // verus!
