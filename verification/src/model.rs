//! The controller as a state machine: what each operation and each reply
//! does to the status and to the operation under way.

use vstd::prelude::*;
use crate::activity::{
    Activity, DeviceError, InitStage, MonitorStage, Outcome, Step, UsbDetail, UsbStage,
};
use crate::status::{DeviceStatus, DeviceType, MixerStatus, UsbProductInformation};
use crate::transport::TransportReply;
use crate::types::{ChannelName, FaderName, GoXLRCommand};

verus! {

/// The controller as contracts see it.
pub struct DeviceState {
    pub status: DeviceStatus,
    pub activity: Activity,
}

impl DeviceState {
    /// A controller that has done nothing yet.
    pub open spec fn fresh() -> DeviceState {
        DeviceState { status: DeviceStatus::empty(), activity: Activity::Idle }
    }

    /// The operation goes on as `activity`, whose call is asked for.
    pub open spec fn proceed(status: DeviceStatus, activity: Activity) -> (DeviceState, Step)
        recommends
            activity.awaited() is Some,
    {
        (DeviceState { status, activity }, Step::Call(activity.awaited()->0))
    }

    /// The operation ends well.
    pub open spec fn finish(status: DeviceStatus, outcome: Outcome) -> (DeviceState, Step) {
        (DeviceState { status, activity: Activity::Idle }, Step::Done(Ok(outcome)))
    }

    /// The operation ends on a reply that it cannot use.
    pub open spec fn abandon(status: DeviceStatus, reply: TransportReply) -> (DeviceState, Step) {
        (
            DeviceState { status, activity: Activity::Idle },
            Step::Done(Err(DeviceError::of_reply(reply))),
        )
    }

    /// An operation is refused because another is under way.
    pub open spec fn refuse(self) -> (DeviceState, Step) {
        (self, Step::Done(Err(DeviceError::Busy)))
    }

    /// Begins setting up the device.
    pub open spec fn initialize(self) -> (DeviceState, Step) {
        if self.activity is Idle {
            Self::proceed(self.status, Activity::Initializing(InitStage::Descriptor))
        } else {
            self.refuse()
        }
    }

    /// Begins one round of input monitoring. The kernel driver flag is
    /// refreshed first where there is USB information to refresh.
    pub open spec fn monitor_inputs(self) -> (DeviceState, Step) {
        if !(self.activity is Idle) {
            self.refuse()
        } else if self.status.usb_device is Some {
            Self::proceed(self.status, Activity::Monitoring(MonitorStage::KernelDriver))
        } else {
            Self::proceed(self.status, Activity::Monitoring(MonitorStage::Interrupt))
        }
    }

    /// Begins, and for `GetStatus` also ends, a command.
    pub open spec fn perform_command(self, command: GoXLRCommand) -> (DeviceState, Step) {
        match command {
            GoXLRCommand::GetStatus => (self, Step::Done(Ok(Outcome::Status(self.status)))),
            GoXLRCommand::AssignFader(fader, channel) => {
                if self.activity is Idle {
                    Self::proceed(self.status, Activity::Assigning(fader, channel))
                } else {
                    self.refuse()
                }
            },
        }
    }

    /// Takes the reply to the outstanding call.
    pub open spec fn resume(self, reply: TransportReply) -> (DeviceState, Step) {
        match self.activity {
            Activity::Idle => (self, Step::Done(Err(DeviceError::NotWaiting))),
            Activity::Initializing(stage) => Self::resume_initializing(self.status, stage, reply),
            Activity::Monitoring(stage) => Self::resume_monitoring(self.status, stage, reply),
            Activity::Assigning(fader, channel) => Self::resume_assigning(
                self.status,
                fader,
                channel,
                reply,
            ),
        }
    }

    /// Setting up, one reply further. The model is entered in the status as
    /// soon as the descriptor is read; nothing else is until the end.
    pub open spec fn resume_initializing(
        status: DeviceStatus,
        stage: InitStage,
        reply: TransportReply,
    ) -> (DeviceState, Step) {
        match stage {
            InitStage::Descriptor => match reply {
                TransportReply::Descriptor { product_id, version } => Self::proceed(
                    DeviceStatus { device_type: DeviceType::of_product_id(product_id), ..status },
                    Activity::Initializing(
                        InitStage::UsbInformation(UsbStage::Manufacturer { version }),
                    ),
                ),
                _ => Self::abandon(status, reply),
            },
            InitStage::UsbInformation(stage) => Self::resume_usb_information(status, stage, reply),
            InitStage::Mixer { fader, usb } => Self::resume_mixer(status, fader, usb, reply),
        }
    }

    /// Reading the USB information, one reply further: the two names, then
    /// the four details, then on to the first fader. A reply of another
    /// kind than the one asked for ends the operation and leaves the status
    /// as it is.
    pub open spec fn resume_usb_information(
        status: DeviceStatus,
        stage: UsbStage,
        reply: TransportReply,
    ) -> (DeviceState, Step) {
        match stage {
            UsbStage::Manufacturer { version } => match reply {
                TransportReply::Text(manufacturer_name) => Self::proceed(
                    status,
                    Activity::Initializing(
                        InitStage::UsbInformation(
                            UsbStage::ProductName { version, manufacturer_name },
                        ),
                    ),
                ),
                _ => Self::abandon(status, reply),
            },
            UsbStage::ProductName { version, manufacturer_name } => match reply {
                TransportReply::Text(product_name) => Self::proceed(
                    status,
                    Activity::Initializing(
                        InitStage::UsbInformation(
                            UsbStage::Detail {
                                detail: UsbDetail::Claimed,
                                usb: UsbProductInformation {
                                    manufacturer_name,
                                    product_name,
                                    is_claimed: false,
                                    has_kernel_driver_attached: false,
                                    bus_number: 0,
                                    address: 0,
                                    version,
                                },
                            },
                        ),
                    ),
                ),
                _ => Self::abandon(status, reply),
            },
            UsbStage::Detail { detail, usb } => match (detail, reply) {
                (UsbDetail::Claimed, TransportReply::Flag(is_claimed)) => Self::proceed(
                    status,
                    Activity::Initializing(
                        InitStage::UsbInformation(
                            UsbStage::Detail {
                                detail: UsbDetail::KernelDriver,
                                usb: UsbProductInformation { is_claimed, ..usb },
                            },
                        ),
                    ),
                ),
                (UsbDetail::KernelDriver, TransportReply::Flag(attached)) => Self::proceed(
                    status,
                    Activity::Initializing(
                        InitStage::UsbInformation(
                            UsbStage::Detail {
                                detail: UsbDetail::BusNumber,
                                usb: UsbProductInformation {
                                    has_kernel_driver_attached: attached,
                                    ..usb
                                },
                            },
                        ),
                    ),
                ),
                (UsbDetail::BusNumber, TransportReply::Number(bus_number)) => Self::proceed(
                    status,
                    Activity::Initializing(
                        InitStage::UsbInformation(
                            UsbStage::Detail {
                                detail: UsbDetail::Address,
                                usb: UsbProductInformation { bus_number, ..usb },
                            },
                        ),
                    ),
                ),
                (UsbDetail::Address, TransportReply::Number(address)) => Self::proceed(
                    status,
                    Activity::Initializing(
                        InitStage::Mixer {
                            fader: FaderName::A,
                            usb: UsbProductInformation { address, ..usb },
                        },
                    ),
                ),
                _ => Self::abandon(status, reply),
            },
        }
    }

    /// Setting up the mixer, one reply further: each fader in turn is sent
    /// to its default channel. When the last has acknowledged, the USB
    /// information and the default routing enter the status together. Any
    /// reply but an acknowledgement ends the operation and leaves the
    /// status as it is.
    pub open spec fn resume_mixer(
        status: DeviceStatus,
        fader: FaderName,
        usb: UsbProductInformation,
        reply: TransportReply,
    ) -> (DeviceState, Step) {
        match reply {
            TransportReply::Acknowledged => match fader.successor() {
                Some(following) => Self::proceed(
                    status,
                    Activity::Initializing(InitStage::Mixer { fader: following, usb }),
                ),
                None => Self::finish(
                    DeviceStatus {
                        device_type: status.device_type,
                        usb_device: Some(usb),
                        mixer: Some(MixerStatus::initial()),
                    },
                    Outcome::Initialized,
                ),
            },
            _ => Self::abandon(status, reply),
        }
    }

    /// Input monitoring, one reply further. Only the kernel driver flag of
    /// the status can change. A failed refresh or wait ends the round with
    /// the error; button states that cannot be read end it well, without
    /// button states.
    pub open spec fn resume_monitoring(
        status: DeviceStatus,
        stage: MonitorStage,
        reply: TransportReply,
    ) -> (DeviceState, Step) {
        match stage {
            MonitorStage::KernelDriver => match reply {
                TransportReply::Flag(attached) => Self::proceed(
                    status.with_kernel_driver(attached),
                    Activity::Monitoring(MonitorStage::Interrupt),
                ),
                _ => Self::abandon(status, reply),
            },
            MonitorStage::Interrupt => match reply {
                TransportReply::Flag(arrived) => if arrived {
                    Self::proceed(status, Activity::Monitoring(MonitorStage::Buttons))
                } else {
                    Self::finish(status, Outcome::InputsMonitored(None))
                },
                _ => Self::abandon(status, reply),
            },
            MonitorStage::Buttons => match reply {
                TransportReply::Buttons(buttons) => Self::finish(
                    status,
                    Outcome::InputsMonitored(Some(buttons)),
                ),
                _ => Self::finish(status, Outcome::InputsMonitored(None)),
            },
        }
    }

    /// A fader assignment, answered. The routing changes only when the
    /// device has acknowledged the assignment.
    pub open spec fn resume_assigning(
        status: DeviceStatus,
        fader: FaderName,
        channel: ChannelName,
        reply: TransportReply,
    ) -> (DeviceState, Step) {
        match reply {
            TransportReply::Acknowledged => Self::finish(
                status.with_assignment(fader, channel),
                Outcome::FaderAssigned,
            ),
            _ => Self::abandon(status, reply),
        }
    }
}

} // verus!
