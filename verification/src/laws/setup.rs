//! Laws of setting up the device.

use vstd::prelude::*;
use crate::activity::{Activity, DeviceError, InitStage, Outcome, Step, UsbDetail, UsbStage};
use crate::laws::{calls, run, succeeded};
use crate::model::DeviceState;
use crate::status::{
    DeviceStatus, DeviceType, MixerStatus, UsbProductInformation, PID_GOXLR_FULL, PID_GOXLR_MINI,
};
use crate::transport::{TransportCall, TransportReply};
use crate::types::{ChannelName, FaderName, GoXLRCommand};

verus! {

/// While the device is being set up, the status keeps its USB information
/// and its routing until the operation succeeds, and its model once the
/// descriptor has been read.
proof fn lemma_initializing(state: DeviceState, step: Step, replies: Seq<TransportReply>)
    requires
        state.activity is Initializing,
        step is Call,
    ensures
        ({
            let end = run(state, step, replies);
            &&& succeeded(end.1) ==> {
                &&& end.1 == Step::Done(Ok(Outcome::Initialized))
                &&& end.0.activity is Idle
                &&& end.0.status.usb_device is Some
                &&& end.0.status.mixer == Some(MixerStatus::initial())
            }
            &&& !succeeded(end.1) ==> {
                &&& end.0.status.usb_device == state.status.usb_device
                &&& end.0.status.mixer == state.status.mixer
            }
            &&& !(state.activity->Initializing_0 is Descriptor) ==> end.0.status.device_type
                == state.status.device_type
        }),
    decreases replies.len(),
{
    if replies.len() > 0 {
        let next = state.resume(replies.first());
        if next.1 is Call {
            lemma_initializing(next.0, next.1, replies.drop_first());
        }
    }
}

/// Setting up the device is all or nothing. Whatever the transport answers,
/// and however many answers it gives, the status has its USB information
/// and its routing as they were before, unless the operation has succeeded;
/// then it has both.
pub proof fn lemma_initialize_all_or_nothing(state: DeviceState, replies: Seq<TransportReply>)
    requires
        state.activity is Idle,
    ensures
        ({
            let begun = state.initialize();
            let end = run(begun.0, begun.1, replies);
            &&& succeeded(end.1) ==> end.0.status.populated()
            &&& !succeeded(end.1) ==> end.0.status.usb_device == state.status.usb_device
                && end.0.status.mixer == state.status.mixer
            &&& state.status == DeviceStatus::empty() && !succeeded(end.1)
                ==> end.0.status.usb_device is None && end.0.status.mixer is None
            &&& state.status.all_or_nothing() ==> end.0.status.all_or_nothing()
        }),
{
    let begun = state.initialize();
    lemma_initializing(begun.0, begun.1, replies);
}

/// The two known product identifiers name their model, and no other value
/// names one.
pub proof fn lemma_classification_is_exact(product_id: u16)
    ensures
        DeviceType::of_product_id(PID_GOXLR_FULL) == DeviceType::Full,
        DeviceType::of_product_id(PID_GOXLR_MINI) == DeviceType::Mini,
        product_id != PID_GOXLR_FULL && product_id != PID_GOXLR_MINI ==> DeviceType::of_product_id(
            product_id,
        ) == DeviceType::Unknown,
{
}

/// Once the descriptor has been read, the status names the model that the
/// descriptor's product identifier stands for, however the rest of setting
/// up the device goes.
pub proof fn lemma_initialize_classifies(
    state: DeviceState,
    product_id: u16,
    version: (u8, u8, u8),
    rest: Seq<TransportReply>,
)
    requires
        state.activity is Idle,
    ensures
        ({
            let begun = state.initialize();
            let replies = seq![TransportReply::Descriptor { product_id, version }] + rest;
            run(begun.0, begun.1, replies).0.status.device_type == DeviceType::of_product_id(
                product_id,
            )
        }),
{
    let begun = state.initialize();
    let first = TransportReply::Descriptor { product_id, version };
    let replies = seq![first] + rest;
    assert(replies.first() == first);
    assert(replies.drop_first() =~= rest);
    let next = begun.0.resume(first);
    lemma_initializing(next.0, next.1, rest);
}

/// After the device has been set up, the status holds the default routing,
/// A to the microphone, B to chat, C to music and D to system sound, and
/// `GetStatus` hands out just that.
pub proof fn lemma_initialize_routes_defaults(state: DeviceState, replies: Seq<TransportReply>)
    requires
        state.activity is Idle,
    ensures
        ({
            let begun = state.initialize();
            let end = run(begun.0, begun.1, replies);
            succeeded(end.1) ==> {
                &&& end.1 == Step::Done(Ok(Outcome::Initialized))
                &&& end.0.status.mixer == Some(
                    MixerStatus {
                        fader_a_assignment: ChannelName::Mic,
                        fader_b_assignment: ChannelName::Chat,
                        fader_c_assignment: ChannelName::Music,
                        fader_d_assignment: ChannelName::System,
                    },
                )
                &&& end.0.perform_command(GoXLRCommand::GetStatus) == (
                    end.0,
                    Step::Done(Ok(Outcome::Status(end.0.status))),
                )
            }
        }),
{
    let begun = state.initialize();
    lemma_initializing(begun.0, begun.1, replies);
}

/// The replies of a transport on which every call of setting up the device
/// succeeds.
pub open spec fn healthy_replies(
    product_id: u16,
    usb: UsbProductInformation,
) -> Seq<TransportReply> {
    seq![
        TransportReply::Descriptor { product_id, version: usb.version },
        TransportReply::Text(usb.manufacturer_name),
        TransportReply::Text(usb.product_name),
        TransportReply::Flag(usb.is_claimed),
        TransportReply::Flag(usb.has_kernel_driver_attached),
        TransportReply::Number(usb.bus_number),
        TransportReply::Number(usb.address),
        TransportReply::Acknowledged,
        TransportReply::Acknowledged,
        TransportReply::Acknowledged,
        TransportReply::Acknowledged,
    ]
}

/// The calls of setting up the device, in order.
pub open spec fn initialize_calls() -> Seq<TransportCall> {
    seq![
        TransportCall::Descriptor,
        TransportCall::Manufacturer,
        TransportCall::ProductName,
        TransportCall::IsClaimed,
        TransportCall::KernelDriverActive,
        TransportCall::BusNumber,
        TransportCall::Address,
        TransportCall::SetFader(FaderName::A, ChannelName::Mic),
        TransportCall::SetFader(FaderName::B, ChannelName::Chat),
        TransportCall::SetFader(FaderName::C, ChannelName::Music),
        TransportCall::SetFader(FaderName::D, ChannelName::System),
    ]
}

/// On a transport whose calls all succeed, setting up the device succeeds:
/// it asks for the descriptor, the two names, the four details and the four
/// default fader assignments, in that order, and leaves a status that holds
/// the model, what was read, and the default routing.
pub proof fn lemma_initialize_succeeds(
    state: DeviceState,
    product_id: u16,
    usb: UsbProductInformation,
)
    requires
        state.activity is Idle,
    ensures
        ({
            let begun = state.initialize();
            let replies = healthy_replies(product_id, usb);
            &&& run(begun.0, begun.1, replies) == (
                DeviceState {
                    status: DeviceStatus {
                        device_type: DeviceType::of_product_id(product_id),
                        usb_device: Some(usb),
                        mixer: Some(MixerStatus::initial()),
                    },
                    activity: Activity::Idle,
                },
                Step::Done(Ok(Outcome::Initialized)),
            )
            &&& calls(begun.0, begun.1, replies) == initialize_calls()
        }),
{
    let begun = state.initialize();
    let replies = healthy_replies(product_id, usb);
    reveal_with_fuel(run, 12);
    reveal_with_fuel(calls, 12);
    assert(calls(begun.0, begun.1, replies) =~= initialize_calls());
}

/// Whether each of the first `count` replies answers the call at its
/// position.
pub open spec fn answers(
    script: Seq<TransportCall>,
    replies: Seq<TransportReply>,
    count: int,
) -> bool {
    forall|i: int| 0 <= i < count ==> script[i].answered_by(#[trigger] replies[i])
}

/// How many calls of setting up the device have been answered when `stage`
/// is reached.
spec fn position(stage: InitStage) -> int {
    match stage {
        InitStage::Descriptor => 0,
        InitStage::UsbInformation(UsbStage::Manufacturer { .. }) => 1,
        InitStage::UsbInformation(UsbStage::ProductName { .. }) => 2,
        InitStage::UsbInformation(UsbStage::Detail { detail, .. }) => match detail {
            UsbDetail::Claimed => 3,
            UsbDetail::KernelDriver => 4,
            UsbDetail::BusNumber => 5,
            UsbDetail::Address => 6,
        },
        InitStage::Mixer { fader, .. } => match fader {
            FaderName::A => 7,
            FaderName::B => 8,
            FaderName::C => 9,
            FaderName::D => 10,
        },
    }
}

/// Setting up the device from `stage` on is decided by the replies alone.
proof fn lemma_initializing_by_replies(
    state: DeviceState,
    stage: InitStage,
    replies: Seq<TransportReply>,
)
    requires
        state.activity == Activity::Initializing(stage),
    ensures
        ({
            let step = Step::Call(stage.call());
            let end = run(state, step, replies);
            let asked = calls(state, step, replies);
            let script = initialize_calls().skip(position(stage));
            &&& script.len() == 11 - position(stage)
            &&& succeeded(end.1) <==> replies.len() >= script.len() && answers(
                script,
                replies,
                script.len() as int,
            )
            &&& forall|k: int|
                0 <= k < replies.len() && k < script.len() && answers(script, replies, k)
                    && !script[k].answered_by(#[trigger] replies[k]) ==> end.1 == Step::Done(
                    Err(DeviceError::of_reply(replies[k])),
                ) && asked == script.take(k + 1)
            &&& replies.len() < script.len() && answers(script, replies, replies.len() as int)
                ==> end.1 == Step::Call(script[replies.len() as int]) && asked == script.take(
                replies.len() as int + 1,
            )
        }),
    decreases replies.len(),
{
    let step = Step::Call(stage.call());
    let script = initialize_calls().skip(position(stage));
    assert(script[0] == stage.call());
    if replies.len() == 0 {
        assert(calls(state, step, replies) =~= script.take(1));
    } else {
        let first = replies.first();
        let rest = replies.drop_first();
        let next = state.resume(first);
        assert(replies[0] == first);
        if !script[0].answered_by(first) {
            assert(run(next.0, next.1, rest) == next);
            assert(calls(next.0, next.1, rest) =~= Seq::<TransportCall>::empty());
            assert(calls(state, step, replies) =~= script.take(1));
            assert forall|k: int|
                0 <= k < replies.len() && k < script.len() && answers(script, replies, k)
                    && !script[k].answered_by(#[trigger] replies[k]) implies k == 0 by {
                if k > 0 {
                    assert(script[0].answered_by(replies[0]));
                }
            }
        } else if position(stage) == 10 {
            assert(script.len() == 1);
            assert(run(next.0, next.1, rest) == next);
            assert(calls(next.0, next.1, rest) =~= Seq::<TransportCall>::empty());
            assert(calls(state, step, replies) =~= script.take(1));
            assert(answers(script, replies, 1));
        } else {
            let following = next.0.activity->Initializing_0;
            let tail = initialize_calls().skip(position(following));
            assert(position(following) == position(stage) + 1);
            assert(next.1 == Step::Call(following.call()));
            lemma_initializing_by_replies(next.0, following, rest);
            assert(tail =~= script.skip(1));
            assert forall|i: int| 0 <= i < rest.len() implies rest[i] == replies[i + 1] by {}
            assert forall|count: int| 0 <= count <= rest.len() && count <= tail.len() implies (
            answers(tail, rest, count) <==> answers(script, replies, count + 1)) by {
                if answers(tail, rest, count) {
                    assert forall|i: int| 0 <= i < count + 1 implies script[i].answered_by(
                        #[trigger] replies[i],
                    ) by {
                        if i > 0 {
                            assert(tail[i - 1].answered_by(rest[i - 1]));
                        }
                    }
                }
                if answers(script, replies, count + 1) {
                    assert forall|i: int| 0 <= i < count implies tail[i].answered_by(
                        #[trigger] rest[i],
                    ) by {
                        assert(script[i + 1].answered_by(replies[i + 1]));
                    }
                }
            }
            let asked = calls(state, step, replies);
            assert(asked == seq![script[0]] + calls(next.0, next.1, rest));
            assert forall|k: int|
                0 <= k < replies.len() && k < script.len() && answers(script, replies, k)
                    && !script[k].answered_by(#[trigger] replies[k]) implies run(
                state,
                step,
                replies,
            ).1 == Step::Done(Err(DeviceError::of_reply(replies[k]))) && asked == script.take(
                k + 1,
            ) by {
                assert(k > 0);
                assert(answers(tail, rest, k - 1));
                assert(!tail[k - 1].answered_by(rest[k - 1]));
                assert(calls(next.0, next.1, rest) == tail.take(k));
                assert(seq![script[0]] + tail.take(k) =~= script.take(k + 1));
            }
            if replies.len() < script.len() && answers(script, replies, replies.len() as int) {
                assert(answers(tail, rest, rest.len() as int));
                assert(seq![script[0]] + tail.take(rest.len() as int + 1) =~= script.take(
                    replies.len() as int + 1,
                ));
            }
            if replies.len() >= script.len() {
                assert(answers(tail, rest, tail.len() as int) <==> answers(
                    script,
                    replies,
                    script.len() as int,
                ));
            }
        }
    }
}

/// Setting up the device is decided by the replies alone. It succeeds when
/// each of its eleven calls is answered by a reply of the right kind, and
/// only then. It fails at the first reply that is not, with that reply's
/// error, and asks for nothing after it. Until then it asks for the next
/// call in order.
pub proof fn lemma_initialize_is_decided_by_replies(
    state: DeviceState,
    replies: Seq<TransportReply>,
)
    requires
        state.activity is Idle,
    ensures
        ({
            let begun = state.initialize();
            let end = run(begun.0, begun.1, replies);
            let asked = calls(begun.0, begun.1, replies);
            let script = initialize_calls();
            &&& succeeded(end.1) <==> replies.len() >= 11 && answers(script, replies, 11)
            &&& forall|k: int|
                0 <= k < replies.len() && k < 11 && answers(script, replies, k)
                    && !script[k].answered_by(#[trigger] replies[k]) ==> end.1 == Step::Done(
                    Err(DeviceError::of_reply(replies[k])),
                ) && asked == script.take(k + 1)
            &&& replies.len() < 11 && answers(script, replies, replies.len() as int) ==> end.1
                == Step::Call(script[replies.len() as int]) && asked == script.take(
                replies.len() as int + 1,
            )
        }),
{
    let begun = state.initialize();
    lemma_initializing_by_replies(begun.0, InitStage::Descriptor, replies);
    assert(initialize_calls().skip(0) =~= initialize_calls());
}

} // verus!
