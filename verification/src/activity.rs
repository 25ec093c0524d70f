//! What the controller can be in the middle of, and how an operation ends.

use vstd::prelude::*;
use crate::status::{DeviceStatus, UsbProductInformation};
use crate::transport::{ButtonStates, TransportCall, TransportReply, INTERRUPT_WAIT_SECONDS};
use crate::types::{ChannelName, FaderName};

verus! {

/// Why an operation ended without success.
#[derive(Debug, PartialEq, Eq)]
pub enum DeviceError {
    /// The transport reported that a call failed; this is its description.
    Transport(String),
    /// What was handed in is no answer to the call that is outstanding.
    UnexpectedReply,
    /// An operation was begun while another is under way.
    Busy,
    /// A reply was handed in while no call is outstanding.
    NotWaiting,
}

/// How an operation ended.
#[derive(Debug, PartialEq, Eq)]
pub enum Outcome {
    /// The device is set up and the status is filled in.
    Initialized,
    /// One round of input monitoring is over. Holds the button states if an
    /// interrupt arrived and they could be read.
    InputsMonitored(Option<ButtonStates>),
    /// A copy of the status.
    Status(DeviceStatus),
    /// The device has acknowledged a fader assignment.
    FaderAssigned,
}

/// What the controller wants next.
#[derive(Debug, PartialEq, Eq)]
pub enum Step {
    /// The transport is to make this call; its reply goes to `resume`.
    Call(TransportCall),
    /// The operation is over.
    Done(Result<Outcome, DeviceError>),
}

/// A yes-or-no or numeric detail of the USB information, read after the
/// two names.
#[derive(Clone, Copy, Debug, PartialEq, Eq, Structural)]
pub enum UsbDetail {
    Claimed,
    KernelDriver,
    BusNumber,
    Address,
}

/// How far reading the USB information has come, with what has been read.
#[derive(Debug, PartialEq, Eq)]
pub enum UsbStage {
    /// The manufacturer's name has been asked for.
    Manufacturer { version: (u8, u8, u8) },
    /// The product's name has been asked for.
    ProductName { version: (u8, u8, u8), manufacturer_name: String },
    /// Both names are known and `detail` has been asked for. The details
    /// not read yet stand as `false` and `0` in `usb`.
    Detail { detail: UsbDetail, usb: UsbProductInformation },
}

/// How far setting up the device has come. What has been read of the USB
/// information is kept here, out of the status, until the end.
#[derive(Debug, PartialEq, Eq)]
pub enum InitStage {
    /// The descriptor has been asked for.
    Descriptor,
    /// The USB information is being read.
    UsbInformation(UsbStage),
    /// The USB information is complete and `fader` has been sent to its
    /// default channel; the faders before it have acknowledged theirs.
    Mixer { fader: FaderName, usb: UsbProductInformation },
}

/// How far one round of input monitoring has come.
#[derive(Clone, Copy, Debug, PartialEq, Eq, Structural)]
pub enum MonitorStage {
    /// The kernel driver flag is being refreshed.
    KernelDriver,
    /// The wait for an interrupt is on.
    Interrupt,
    /// An interrupt arrived and the button states have been asked for.
    Buttons,
}

/// The operation under way.
#[derive(Debug, PartialEq, Eq)]
pub enum Activity {
    /// None: no call is outstanding.
    Idle,
    /// The device is being set up.
    Initializing(InitStage),
    /// Inputs are being monitored.
    Monitoring(MonitorStage),
    /// The device has been asked to route the fader to the channel.
    Assigning(FaderName, ChannelName),
}

impl DeviceError {
    /// The error that ends an operation when `reply` is not what the
    /// operation needs: the transport's failure if it reported one, else
    /// `UnexpectedReply`.
    pub open spec fn of_reply(reply: TransportReply) -> DeviceError {
        match reply {
            TransportReply::Failed(description) => DeviceError::Transport(description),
            _ => DeviceError::UnexpectedReply,
        }
    }

    /// The error that ends an operation when `reply` is not what the
    /// operation needs.
    pub fn from_reply(reply: TransportReply) -> (error: DeviceError)
        ensures
            error == DeviceError::of_reply(reply),
    {
        match reply {
            TransportReply::Failed(description) => DeviceError::Transport(description),
            _ => DeviceError::UnexpectedReply,
        }
    }
}

impl UsbDetail {
    /// The call that reads this detail.
    pub open spec fn call(self) -> TransportCall {
        match self {
            UsbDetail::Claimed => TransportCall::IsClaimed,
            UsbDetail::KernelDriver => TransportCall::KernelDriverActive,
            UsbDetail::BusNumber => TransportCall::BusNumber,
            UsbDetail::Address => TransportCall::Address,
        }
    }
}

impl UsbStage {
    /// The call whose reply this stage waits for.
    pub open spec fn call(self) -> TransportCall {
        match self {
            UsbStage::Manufacturer { .. } => TransportCall::Manufacturer,
            UsbStage::ProductName { .. } => TransportCall::ProductName,
            UsbStage::Detail { detail, .. } => detail.call(),
        }
    }
}

impl InitStage {
    /// The call whose reply this stage waits for.
    pub open spec fn call(self) -> TransportCall {
        match self {
            InitStage::Descriptor => TransportCall::Descriptor,
            InitStage::UsbInformation(stage) => stage.call(),
            InitStage::Mixer { fader, .. } => TransportCall::SetFader(
                fader,
                fader.default_channel(),
            ),
        }
    }
}

impl MonitorStage {
    /// The call whose reply this stage waits for. A wait for an interrupt
    /// is always asked for with the one fixed bound.
    pub open spec fn call(self) -> TransportCall {
        match self {
            MonitorStage::KernelDriver => TransportCall::KernelDriverActive,
            MonitorStage::Interrupt => TransportCall::AwaitInterrupt {
                seconds: INTERRUPT_WAIT_SECONDS,
            },
            MonitorStage::Buttons => TransportCall::ButtonStates,
        }
    }
}

impl Activity {
    /// The call that is outstanding, if any.
    pub open spec fn awaited(self) -> Option<TransportCall> {
        match self {
            Activity::Idle => None,
            Activity::Initializing(stage) => Some(stage.call()),
            Activity::Monitoring(stage) => Some(stage.call()),
            Activity::Assigning(fader, channel) => Some(TransportCall::SetFader(fader, channel)),
        }
    }

    /// The call that is outstanding, `None` when idle.
    pub fn outstanding_call(&self) -> (call: Option<TransportCall>)
        ensures
            call == self.awaited(),
    {
        match self {
            Activity::Idle => None,
            Activity::Initializing(InitStage::Descriptor) => Some(TransportCall::Descriptor),
            Activity::Initializing(InitStage::UsbInformation(stage)) => Some(
                match stage {
                    UsbStage::Manufacturer { .. } => TransportCall::Manufacturer,
                    UsbStage::ProductName { .. } => TransportCall::ProductName,
                    UsbStage::Detail { detail, .. } => match detail {
                        UsbDetail::Claimed => TransportCall::IsClaimed,
                        UsbDetail::KernelDriver => TransportCall::KernelDriverActive,
                        UsbDetail::BusNumber => TransportCall::BusNumber,
                        UsbDetail::Address => TransportCall::Address,
                    },
                },
            ),
            Activity::Initializing(InitStage::Mixer { fader, .. }) => Some(
                TransportCall::SetFader(*fader, fader.initial_channel()),
            ),
            Activity::Monitoring(stage) => Some(
                match stage {
                    MonitorStage::KernelDriver => TransportCall::KernelDriverActive,
                    MonitorStage::Interrupt => TransportCall::AwaitInterrupt {
                        seconds: INTERRUPT_WAIT_SECONDS,
                    },
                    MonitorStage::Buttons => TransportCall::ButtonStates,
                },
            ),
            Activity::Assigning(fader, channel) => Some(TransportCall::SetFader(*fader, *channel)),
        }
    }
}

} // verus!
