//! Laws of input monitoring.

use vstd::prelude::*;
use crate::activity::{Activity, DeviceError, Outcome, Step};
use crate::laws::{calls, run};
use crate::model::DeviceState;
use crate::status::{DeviceStatus, UsbProductInformation};
use crate::transport::{ButtonStates, TransportCall, TransportReply, INTERRUPT_WAIT_SECONDS};

verus! {

/// The button states that a reply holds, if it holds any.
pub open spec fn buttons_read(reply: TransportReply) -> Option<ButtonStates> {
    match reply {
        TransportReply::Buttons(buttons) => Some(buttons),
        _ => None,
    }
}

/// Button states that cannot be read do not fail a round of input
/// monitoring. When an interrupt arrived, the round ends well whatever the
/// read gave: with the button states if it gave them, without if it failed
/// or gave anything else. The status differs from the one before at most
/// in the kernel driver flag, which holds what the transport answered.
pub proof fn lemma_monitoring_survives_unreadable_buttons(
    state: DeviceState,
    attached: bool,
    reply: TransportReply,
)
    requires
        state.activity is Idle,
    ensures
        state.status.usb_device matches Some(usb) ==> ({
            let begun = state.monitor_inputs();
            let replies = seq![TransportReply::Flag(attached), TransportReply::Flag(true), reply];
            let refreshed = UsbProductInformation { has_kernel_driver_attached: attached, ..usb };
            &&& run(begun.0, begun.1, replies) == (
                DeviceState {
                    status: DeviceStatus { usb_device: Some(refreshed), ..state.status },
                    activity: Activity::Idle,
                },
                Step::Done(Ok(Outcome::InputsMonitored(buttons_read(reply)))),
            )
            &&& calls(begun.0, begun.1, replies) == seq![
                TransportCall::KernelDriverActive,
                TransportCall::AwaitInterrupt { seconds: INTERRUPT_WAIT_SECONDS },
                TransportCall::ButtonStates,
            ]
        }),
        state.status.usb_device is None ==> ({
            let begun = state.monitor_inputs();
            let replies = seq![TransportReply::Flag(true), reply];
            &&& run(begun.0, begun.1, replies) == (
                state,
                Step::Done(Ok(Outcome::InputsMonitored(buttons_read(reply)))),
            )
            &&& calls(begun.0, begun.1, replies) == seq![
                TransportCall::AwaitInterrupt { seconds: INTERRUPT_WAIT_SECONDS },
                TransportCall::ButtonStates,
            ]
        }),
        reply is Failed ==> buttons_read(reply) is None,
{
    reveal_with_fuel(run, 4);
    reveal_with_fuel(calls, 4);
    let begun = state.monitor_inputs();
    if state.status.usb_device is Some {
        let replies = seq![TransportReply::Flag(attached), TransportReply::Flag(true), reply];
        assert(calls(begun.0, begun.1, replies) =~= seq![
            TransportCall::KernelDriverActive,
            TransportCall::AwaitInterrupt { seconds: INTERRUPT_WAIT_SECONDS },
            TransportCall::ButtonStates,
        ]);
    } else {
        let replies = seq![TransportReply::Flag(true), reply];
        assert(calls(begun.0, begun.1, replies) =~= seq![
            TransportCall::AwaitInterrupt { seconds: INTERRUPT_WAIT_SECONDS },
            TransportCall::ButtonStates,
        ]);
    }
}

/// A wait for an interrupt is bounded. A round of input monitoring asks for
/// one wait, of one second at most; when the transport answers that no
/// interrupt arrived, the round ends well and asks for nothing more.
pub proof fn lemma_monitoring_ends_without_interrupt(state: DeviceState, attached: bool)
    requires
        state.activity is Idle,
    ensures
        INTERRUPT_WAIT_SECONDS == 1,
        state.status.usb_device is Some ==> ({
            let begun = state.monitor_inputs();
            let replies = seq![TransportReply::Flag(attached), TransportReply::Flag(false)];
            &&& run(begun.0, begun.1, replies) == (
                DeviceState {
                    status: state.status.with_kernel_driver(attached),
                    activity: Activity::Idle,
                },
                Step::Done(Ok(Outcome::InputsMonitored(None))),
            )
            &&& calls(begun.0, begun.1, replies) == seq![
                TransportCall::KernelDriverActive,
                TransportCall::AwaitInterrupt { seconds: 1 },
            ]
        }),
        state.status.usb_device is None ==> ({
            let begun = state.monitor_inputs();
            let replies = seq![TransportReply::Flag(false)];
            &&& run(begun.0, begun.1, replies) == (
                state,
                Step::Done(Ok(Outcome::InputsMonitored(None))),
            )
            &&& calls(begun.0, begun.1, replies) == seq![
                TransportCall::AwaitInterrupt { seconds: 1 },
            ]
        }),
{
    reveal_with_fuel(run, 3);
    reveal_with_fuel(calls, 3);
    let begun = state.monitor_inputs();
    if state.status.usb_device is Some {
        let replies = seq![TransportReply::Flag(attached), TransportReply::Flag(false)];
        assert(calls(begun.0, begun.1, replies) =~= seq![
            TransportCall::KernelDriverActive,
            TransportCall::AwaitInterrupt { seconds: 1 },
        ]);
    } else {
        let replies = seq![TransportReply::Flag(false)];
        assert(calls(begun.0, begun.1, replies) =~= seq![
            TransportCall::AwaitInterrupt { seconds: 1 },
        ]);
    }
}

/// A kernel driver flag that cannot be refreshed fails the round of input
/// monitoring at once: no wait is asked for and the status is as before.
pub proof fn lemma_monitoring_stops_on_failed_refresh(
    state: DeviceState,
    description: String,
    rest: Seq<TransportReply>,
)
    requires
        state.activity is Idle,
        state.status.usb_device is Some,
    ensures
        ({
            let begun = state.monitor_inputs();
            let replies = seq![TransportReply::Failed(description)] + rest;
            &&& run(begun.0, begun.1, replies) == (
                state,
                Step::Done(Err(DeviceError::Transport(description))),
            )
            &&& calls(begun.0, begun.1, replies) == seq![TransportCall::KernelDriverActive]
        }),
{
    let begun = state.monitor_inputs();
    let replies = seq![TransportReply::Failed(description)] + rest;
    reveal_with_fuel(run, 2);
    reveal_with_fuel(calls, 2);
    assert(replies.first() == TransportReply::Failed(description));
    assert(calls(begun.0, begun.1, replies) =~= seq![TransportCall::KernelDriverActive]);
}

} // verus!
