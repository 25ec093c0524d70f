//! What holds of the controller whatever the transport answers.
//!
//! The laws are stated over [`run`]: the controller's path from the step
//! that begins an operation through the replies handed in after it. Those
//! of one operation stand in the module named after it; those of every step
//! stand here.

use vstd::prelude::*;
use crate::activity::{Activity, DeviceError, Step};
use crate::model::DeviceState;
use crate::transport::{TransportCall, TransportReply, INTERRUPT_WAIT_SECONDS};
use crate::types::{FaderName, GoXLRCommand};

pub mod commands;
pub mod monitoring;
pub mod setup;

verus! {

/// Where the controller stands once `replies` have been handed in, one
/// after the other, for as long as a call is outstanding. Replies that come
/// after the operation's end are left unused.
pub open spec fn run(state: DeviceState, step: Step, replies: Seq<TransportReply>) -> (
    DeviceState,
    Step,
)
    decreases replies.len(),
{
    if step is Call && replies.len() > 0 {
        let next = state.resume(replies.first());
        run(next.0, next.1, replies.drop_first())
    } else {
        (state, step)
    }
}

/// The calls that the controller asks for on that path, in order.
pub open spec fn calls(state: DeviceState, step: Step, replies: Seq<TransportReply>) -> Seq<
    TransportCall,
>
    decreases replies.len(),
{
    match step {
        Step::Done(_) => Seq::empty(),
        Step::Call(call) => if replies.len() > 0 {
            let next = state.resume(replies.first());
            seq![call] + calls(next.0, next.1, replies.drop_first())
        } else {
            seq![call]
        },
    }
}

/// Whether `step` is the successful end of an operation.
pub open spec fn succeeded(step: Step) -> bool {
    step matches Step::Done(Ok(_))
}

/// USB information and routing are present together or absent together,
/// before and after every step of the controller.
pub proof fn lemma_all_or_nothing_is_kept(
    state: DeviceState,
    command: GoXLRCommand,
    reply: TransportReply,
)
    requires
        state.status.all_or_nothing(),
    ensures
        DeviceState::fresh().status.all_or_nothing(),
        state.initialize().0.status.all_or_nothing(),
        state.monitor_inputs().0.status.all_or_nothing(),
        state.perform_command(command).0.status.all_or_nothing(),
        state.resume(reply).0.status.all_or_nothing(),
{
}

/// USB information and routing are present together or absent together
/// at the end of every path.
pub proof fn lemma_run_keeps_all_or_nothing(
    state: DeviceState,
    step: Step,
    replies: Seq<TransportReply>,
)
    requires
        state.status.all_or_nothing(),
    ensures
        run(state, step, replies).0.status.all_or_nothing(),
    decreases replies.len(),
{
    if step is Call && replies.len() > 0 {
        let next = state.resume(replies.first());
        lemma_all_or_nothing_is_kept(state, GoXLRCommand::GetStatus, replies.first());
        lemma_run_keeps_all_or_nothing(next.0, next.1, replies.drop_first());
    }
}

/// No step of the controller asks for a longer wait than the one fixed
/// bound.
pub proof fn lemma_every_wait_is_bounded(
    state: DeviceState,
    command: GoXLRCommand,
    reply: TransportReply,
    seconds: u64,
)
    ensures
        state.initialize().1 != Step::Call(TransportCall::AwaitInterrupt { seconds }),
        state.perform_command(command).1 != Step::Call(TransportCall::AwaitInterrupt { seconds }),
        state.monitor_inputs().1 == Step::Call(TransportCall::AwaitInterrupt { seconds })
            ==> seconds == INTERRUPT_WAIT_SECONDS,
        state.resume(reply).1 == Step::Call(TransportCall::AwaitInterrupt { seconds }) ==> seconds
            == INTERRUPT_WAIT_SECONDS,
{
}

/// The controller and its caller agree on what is outstanding. A call that
/// a step asks for is the call that the controller then waits for; a reply
/// ends the operation or leads to the next call; and an operation that is
/// refused, or a reply that answers nothing, changes nothing.
pub proof fn lemma_steps_agree_with_activity(
    state: DeviceState,
    command: GoXLRCommand,
    reply: TransportReply,
    call: TransportCall,
)
    ensures
        DeviceState::fresh().activity is Idle,
        state.initialize().1 == Step::Call(call) ==> state.initialize().0.activity.awaited()
            == Some(call),
        state.monitor_inputs().1 == Step::Call(call) ==> state.monitor_inputs().0.activity.awaited()
            == Some(call),
        state.perform_command(command).1 == Step::Call(call) ==> state.perform_command(
            command,
        ).0.activity.awaited() == Some(call),
        state.resume(reply).1 == Step::Call(call) ==> state.resume(reply).0.activity.awaited()
            == Some(call),
        state.resume(reply).1 is Done ==> state.resume(reply).0.activity is Idle,
        state.activity is Idle ==> state.resume(reply) == (
            state,
            Step::Done(Err(DeviceError::NotWaiting)),
        ),
        !(state.activity is Idle) ==> ({
            &&& state.initialize() == (state, Step::Done(Err(DeviceError::Busy)))
            &&& state.monitor_inputs() == (state, Step::Done(Err(DeviceError::Busy)))
            &&& command is AssignFader ==> state.perform_command(command) == (
                state,
                Step::Done(Err(DeviceError::Busy)),
            )
        }),
{
}

/// Every change to the status has its one cause. The model changes only
/// when a descriptor is read while the device is set up; USB information
/// and routing appear only when setting up succeeds; after that a reply can
/// change the kernel driver flag, during input monitoring, or the channel
/// of the one fader that an assignment names, and nothing else.
pub proof fn lemma_status_changes_are_confined(state: DeviceState, reply: TransportReply)
    ensures
        ({
            let next = state.resume(reply).0;
            &&& !(state.activity is Initializing) ==> {
                &&& next.status.device_type == state.status.device_type
                &&& next.status.usb_device is Some <==> state.status.usb_device is Some
                &&& next.status.mixer is Some <==> state.status.mixer is Some
            }
            &&& state.activity is Monitoring ==> {
                &&& next.status.mixer == state.status.mixer
                &&& (state.status.usb_device matches Some(before) ==> {
                    &&& next.status.usb_device matches Some(after)
                    &&& after.differs_at_most_in_kernel_driver(before)
                })
            }
            &&& state.activity matches Activity::Assigning(fader, _) ==> {
                &&& next.status.usb_device == state.status.usb_device
                &&& forall|other: FaderName|
                    other != fader && state.status.mixer is Some
                        ==> #[trigger] next.status.mixer->0.channel(other)
                        == state.status.mixer->0.channel(other)
            }
        }),
{
}

} // verus!
