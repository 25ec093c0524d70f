//! The device controller: one status mirror and the operation under way.
//!
//! An operation is begun with `initialize`, `monitor_inputs` or
//! `perform_command`. Each answers with a [`Step`]: either the transport
//! call to make next, whose reply goes to `resume`, or the operation's end.

use vstd::prelude::*;
use crate::activity::{
    Activity, DeviceError, InitStage, MonitorStage, Outcome, Step, UsbDetail, UsbStage,
};
use crate::model::DeviceState;
use crate::status::{DeviceStatus, DeviceType, MixerStatus, UsbProductInformation};
use crate::transport::{TransportCall, TransportReply, INTERRUPT_WAIT_SECONDS};
use crate::types::{ChannelName, FaderName, GoXLRCommand};

verus! {

/// The controller of one device. It owns the status mirror, is its only
/// writer, and decides every call that the transport makes.
#[derive(Debug)]
pub struct Device {
    status: DeviceStatus,
    activity: Activity,
}

impl View for Device {
    type V = DeviceState;

    closed spec fn view(&self) -> DeviceState {
        DeviceState { status: self.status, activity: self.activity }
    }
}

/// Status, operation under way and next step, as one transition yields them.
type Transition = (DeviceStatus, Activity, Step);

/// What a transition amounts to in the model.
spec fn modelled(next: Transition) -> (DeviceState, Step) {
    (DeviceState { status: next.0, activity: next.1 }, next.2)
}

impl Device {
    #[verifier::type_invariant]
    spec fn mirror_all_or_nothing(&self) -> bool {
        self.status.all_or_nothing()
    }

    /// A controller that has done nothing yet: the status is empty and no
    /// call is outstanding.
    pub fn new() -> (device: Device)
        ensures
            device@ == DeviceState::fresh(),
    {
        Device { status: DeviceStatus::default(), activity: Activity::Idle }
    }

    /// Begins setting up the device, unless an operation is under way. The
    /// status does not change yet.
    pub fn initialize(&mut self) -> (step: Step)
        ensures
            (final(self)@, step) == old(self)@.initialize(),
            final(self)@.status == old(self)@.status,
            final(self)@.status.all_or_nothing(),
            old(self)@.activity is Idle <==> step is Call,
            step matches Step::Call(call) ==> final(self)@.activity.awaited() == Some(call),
            step is Done ==> step == Step::Done(Err(DeviceError::Busy)) && final(self)@ == old(
                self,
            )@,
    {
        proof {
            use_type_invariant(&*self);
        }
        self.begin(Activity::Initializing(InitStage::Descriptor))
    }

    /// Begins one round of input monitoring, unless an operation is under
    /// way. The status does not change yet.
    pub fn monitor_inputs(&mut self) -> (step: Step)
        ensures
            (final(self)@, step) == old(self)@.monitor_inputs(),
            final(self)@.status == old(self)@.status,
            final(self)@.status.all_or_nothing(),
            old(self)@.activity is Idle <==> step is Call,
            step matches Step::Call(call) ==> final(self)@.activity.awaited() == Some(call),
            step is Done ==> step == Step::Done(Err(DeviceError::Busy)) && final(self)@ == old(
                self,
            )@,
    {
        proof {
            use_type_invariant(&*self);
        }
        if self.status.usb_device.is_some() {
            self.begin(Activity::Monitoring(MonitorStage::KernelDriver))
        } else {
            self.begin(Activity::Monitoring(MonitorStage::Interrupt))
        }
    }

    /// Performs `command` as far as it can go without the transport:
    /// `GetStatus` to its end, whatever is under way, and `AssignFader` up
    /// to the call that routes the fader on the device. The status does not
    /// change yet.
    pub fn perform_command(&mut self, command: GoXLRCommand) -> (step: Step)
        ensures
            (final(self)@, step) == old(self)@.perform_command(command),
            final(self)@.status == old(self)@.status,
            final(self)@.status.all_or_nothing(),
            command is GetStatus ==> final(self)@ == old(self)@ && step == Step::Done(
                Ok(Outcome::Status(old(self)@.status)),
            ),
            command matches GoXLRCommand::AssignFader(fader, channel) ==> ({
                &&& old(self)@.activity is Idle ==> step == Step::Call(
                    TransportCall::SetFader(fader, channel),
                ) && final(self)@.activity == Activity::Assigning(fader, channel)
                &&& !(old(self)@.activity is Idle) ==> step == Step::Done(Err(DeviceError::Busy))
                    && final(self)@ == old(self)@
            }),
    {
        proof {
            use_type_invariant(&*self);
        }
        match command {
            GoXLRCommand::GetStatus => Step::Done(Ok(Outcome::Status(self.status.clone()))),
            GoXLRCommand::AssignFader(fader, channel) => self.begin(
                Activity::Assigning(fader, channel),
            ),
        }
    }

    /// Takes the reply to the outstanding call and says what comes next.
    pub fn resume(&mut self, reply: TransportReply) -> (step: Step)
        ensures
            (final(self)@, step) == old(self)@.resume(reply),
            final(self)@.status.all_or_nothing(),
            step matches Step::Call(call) ==> final(self)@.activity.awaited() == Some(call),
            step is Done ==> final(self)@.activity is Idle,
            old(self)@.activity is Idle ==> step == Step::Done(Err(DeviceError::NotWaiting))
                && final(self)@ == old(self)@,
            old(self)@.activity.awaited() matches Some(call) ==> ({
                let fails = call != TransportCall::ButtonStates && !call.answered_by(reply);
                &&& fails ==> step == Step::Done(Err(DeviceError::of_reply(reply)))
                    && final(self)@.status == old(self)@.status
                &&& !fails ==> !(step matches Step::Done(Err(_)))
            }),
    {
        proof {
            use_type_invariant(&*self);
        }
        let mut activity = Activity::Idle;
        std::mem::swap(&mut activity, &mut self.activity);
        let mut status = DeviceStatus::default();
        std::mem::swap(&mut status, &mut self.status);
        let (status, activity, step) = match activity {
            Activity::Idle => (status, Activity::Idle, Step::Done(Err(DeviceError::NotWaiting))),
            Activity::Initializing(stage) => advance_initializing(status, stage, reply),
            Activity::Monitoring(stage) => advance_monitoring(status, stage, reply),
            Activity::Assigning(fader, channel) => advance_assigning(status, fader, channel, reply),
        };
        self.status = status;
        self.activity = activity;
        step
    }

    /// The status mirror.
    pub fn status(&self) -> (status: &DeviceStatus)
        ensures
            *status == self@.status,
            status.all_or_nothing(),
    {
        proof {
            use_type_invariant(self);
        }
        &self.status
    }

    /// The call that is outstanding, `None` when no operation is under way.
    pub fn outstanding_call(&self) -> (call: Option<TransportCall>)
        ensures
            call == self@.activity.awaited(),
    {
        self.activity.outstanding_call()
    }

    /// Enters `activity` and asks for its call, unless an operation is
    /// under way.
    fn begin(&mut self, activity: Activity) -> (step: Step)
        requires
            activity.awaited() is Some,
        ensures
            final(self).status == old(self).status,
            old(self).activity is Idle ==> (final(self)@, step) == DeviceState::proceed(
                old(self).status,
                activity,
            ),
            !(old(self).activity is Idle) ==> (final(self)@, step) == old(self)@.refuse(),
    {
        proof {
            use_type_invariant(&*self);
        }
        match (&self.activity, activity.outstanding_call()) {
            (Activity::Idle, Some(call)) => {
                self.activity = activity;
                Step::Call(call)
            },
            _ => Step::Done(Err(DeviceError::Busy)),
        }
    }
}

/// The operation goes on as `activity`, whose call is asked for.
fn proceed(status: DeviceStatus, activity: Activity, call: TransportCall) -> (next: Transition)
    requires
        activity.awaited() == Some(call),
    ensures
        modelled(next) == DeviceState::proceed(status, activity),
        next.0 == status,
{
    (status, activity, Step::Call(call))
}

/// The operation ends well.
fn finish(status: DeviceStatus, outcome: Outcome) -> (next: Transition)
    ensures
        modelled(next) == DeviceState::finish(status, outcome),
        next.0 == status,
{
    (status, Activity::Idle, Step::Done(Ok(outcome)))
}

/// The operation ends on a reply that it cannot use.
fn abandon(status: DeviceStatus, reply: TransportReply) -> (next: Transition)
    ensures
        modelled(next) == DeviceState::abandon(status, reply),
        next.0 == status,
{
    (status, Activity::Idle, Step::Done(Err(DeviceError::from_reply(reply))))
}

/// Reading the USB information goes on as `stage`.
fn proceed_usb(status: DeviceStatus, stage: UsbStage, call: TransportCall) -> (next: Transition)
    requires
        stage.call() == call,
    ensures
        modelled(next) == DeviceState::proceed(
            status,
            Activity::Initializing(InitStage::UsbInformation(stage)),
        ),
        next.0 == status,
{
    proceed(status, Activity::Initializing(InitStage::UsbInformation(stage)), call)
}

/// Setting up the mixer goes on with `fader`.
fn proceed_mixer(
    status: DeviceStatus,
    fader: FaderName,
    usb: UsbProductInformation,
) -> (next: Transition)
    ensures
        modelled(next) == DeviceState::proceed(
            status,
            Activity::Initializing(InitStage::Mixer { fader, usb }),
        ),
        next.0 == status,
{
    let call = TransportCall::SetFader(fader, fader.initial_channel());
    proceed(status, Activity::Initializing(InitStage::Mixer { fader, usb }), call)
}

/// Setting up the device, one reply further.
fn advance_initializing(
    status: DeviceStatus,
    stage: InitStage,
    reply: TransportReply,
) -> (next: Transition)
    ensures
        modelled(next) == DeviceState::resume_initializing(status, stage, reply),
        status.all_or_nothing() ==> next.0.all_or_nothing(),
{
    match stage {
        InitStage::Descriptor => match reply {
            TransportReply::Descriptor { product_id, version } => {
                let mut status = status;
                status.device_type = DeviceType::from_product_id(product_id);
                proceed_usb(status, UsbStage::Manufacturer { version }, TransportCall::Manufacturer)
            },
            reply => abandon(status, reply),
        },
        InitStage::UsbInformation(stage) => fill_usb_information(status, stage, reply),
        InitStage::Mixer { fader, usb } => initialize_mixer(status, fader, usb, reply),
    }
}

/// Reading the USB information, one reply further.
fn fill_usb_information(
    status: DeviceStatus,
    stage: UsbStage,
    reply: TransportReply,
) -> (next: Transition)
    ensures
        modelled(next) == DeviceState::resume_usb_information(status, stage, reply),
        next.0 == status,
{
    match stage {
        UsbStage::Manufacturer { version } => match reply {
            TransportReply::Text(manufacturer_name) => proceed_usb(
                status,
                UsbStage::ProductName { version, manufacturer_name },
                TransportCall::ProductName,
            ),
            reply => abandon(status, reply),
        },
        UsbStage::ProductName { version, manufacturer_name } => match reply {
            TransportReply::Text(product_name) => {
                let usb = UsbProductInformation {
                    manufacturer_name,
                    product_name,
                    is_claimed: false,
                    has_kernel_driver_attached: false,
                    bus_number: 0,
                    address: 0,
                    version,
                };
                proceed_usb(
                    status,
                    UsbStage::Detail { detail: UsbDetail::Claimed, usb },
                    TransportCall::IsClaimed,
                )
            },
            reply => abandon(status, reply),
        },
        UsbStage::Detail { detail, usb } => {
            let mut usb = usb;
            match (detail, reply) {
                (UsbDetail::Claimed, TransportReply::Flag(is_claimed)) => {
                    usb.is_claimed = is_claimed;
                    proceed_usb(
                        status,
                        UsbStage::Detail { detail: UsbDetail::KernelDriver, usb },
                        TransportCall::KernelDriverActive,
                    )
                },
                (UsbDetail::KernelDriver, TransportReply::Flag(attached)) => {
                    usb.has_kernel_driver_attached = attached;
                    proceed_usb(
                        status,
                        UsbStage::Detail { detail: UsbDetail::BusNumber, usb },
                        TransportCall::BusNumber,
                    )
                },
                (UsbDetail::BusNumber, TransportReply::Number(bus_number)) => {
                    usb.bus_number = bus_number;
                    proceed_usb(
                        status,
                        UsbStage::Detail { detail: UsbDetail::Address, usb },
                        TransportCall::Address,
                    )
                },
                (UsbDetail::Address, TransportReply::Number(address)) => {
                    usb.address = address;
                    proceed_mixer(status, FaderName::A, usb)
                },
                (_, reply) => abandon(status, reply),
            }
        },
    }
}

/// Setting up the mixer, one reply further.
fn initialize_mixer(
    status: DeviceStatus,
    fader: FaderName,
    usb: UsbProductInformation,
    reply: TransportReply,
) -> (next: Transition)
    ensures
        modelled(next) == DeviceState::resume_mixer(status, fader, usb, reply),
        status.all_or_nothing() ==> next.0.all_or_nothing(),
{
    match reply {
        TransportReply::Acknowledged => match fader.next() {
            Some(following) => proceed_mixer(status, following, usb),
            None => finish(
                DeviceStatus {
                    device_type: status.device_type,
                    usb_device: Some(usb),
                    mixer: Some(MixerStatus::defaults()),
                },
                Outcome::Initialized,
            ),
        },
        reply => abandon(status, reply),
    }
}

/// Input monitoring, one reply further.
fn advance_monitoring(
    status: DeviceStatus,
    stage: MonitorStage,
    reply: TransportReply,
) -> (next: Transition)
    ensures
        modelled(next) == DeviceState::resume_monitoring(status, stage, reply),
        status.all_or_nothing() ==> next.0.all_or_nothing(),
{
    match stage {
        MonitorStage::KernelDriver => match reply {
            TransportReply::Flag(attached) => proceed(
                status.refresh_kernel_driver(attached),
                Activity::Monitoring(MonitorStage::Interrupt),
                TransportCall::AwaitInterrupt { seconds: INTERRUPT_WAIT_SECONDS },
            ),
            reply => abandon(status, reply),
        },
        MonitorStage::Interrupt => match reply {
            TransportReply::Flag(arrived) => if arrived {
                proceed(
                    status,
                    Activity::Monitoring(MonitorStage::Buttons),
                    TransportCall::ButtonStates,
                )
            } else {
                finish(status, Outcome::InputsMonitored(None))
            },
            reply => abandon(status, reply),
        },
        MonitorStage::Buttons => match reply {
            TransportReply::Buttons(buttons) => finish(
                status,
                Outcome::InputsMonitored(Some(buttons)),
            ),
            _ => finish(status, Outcome::InputsMonitored(None)),
        },
    }
}

/// A fader assignment, answered.
fn advance_assigning(
    status: DeviceStatus,
    fader: FaderName,
    channel: ChannelName,
    reply: TransportReply,
) -> (next: Transition)
    ensures
        modelled(next) == DeviceState::resume_assigning(status, fader, channel, reply),
        status.all_or_nothing() ==> next.0.all_or_nothing(),
{
    match reply {
        TransportReply::Acknowledged => finish(
            status.assign_fader(fader, channel),
            Outcome::FaderAssigned,
        ),
        reply => abandon(status, reply),
    }
}

} // verus!
