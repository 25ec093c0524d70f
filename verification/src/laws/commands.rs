//! Laws of commands: fader assignments and status snapshots.

use vstd::prelude::*;
use crate::activity::{DeviceError, Outcome, Step};
use crate::model::DeviceState;
use crate::transport::{TransportCall, TransportReply};
use crate::types::{ChannelName, FaderName, GoXLRCommand};

verus! {

/// One fader assignment and what the transport answered to it.
pub struct Attempt {
    pub fader: FaderName,
    pub channel: ChannelName,
    pub reply: TransportReply,
}

impl Attempt {
    /// Whether the device acknowledged the assignment of `fader`.
    pub open spec fn settles(self, fader: FaderName) -> bool {
        self.fader == fader && self.reply is Acknowledged
    }
}

/// The controller after every attempt has been commanded and answered, one
/// after the other.
pub open spec fn assign_each(state: DeviceState, attempts: Seq<Attempt>) -> DeviceState
    decreases attempts.len(),
{
    if attempts.len() == 0 {
        state
    } else {
        let attempt = attempts.last();
        let command = GoXLRCommand::AssignFader(attempt.fader, attempt.channel);
        assign_each(state, attempts.drop_last()).perform_command(command).0.resume(attempt.reply).0
    }
}

/// The channel of the last attempt on `fader` that the device acknowledged,
/// if there is one.
pub open spec fn last_acknowledged(attempts: Seq<Attempt>, fader: FaderName) -> Option<
    ChannelName,
>
    decreases attempts.len(),
{
    if attempts.len() == 0 {
        None
    } else if attempts.last().settles(fader) {
        Some(attempts.last().channel)
    } else {
        last_acknowledged(attempts.drop_last(), fader)
    }
}

/// `last_acknowledged` by positions: it is the channel of an acknowledged
/// attempt on the fader that no later such attempt follows, and it is
/// `None` only where no attempt on the fader was acknowledged.
pub proof fn lemma_last_acknowledged(attempts: Seq<Attempt>, fader: FaderName)
    ensures
        (match last_acknowledged(attempts, fader) {
            Some(channel) => exists|i: int|
                {
                    &&& 0 <= i < attempts.len()
                    &&& (#[trigger] attempts[i]).settles(fader)
                    &&& attempts[i].channel == channel
                    &&& forall|j: int|
                        i < j < attempts.len() ==> !(#[trigger] attempts[j]).settles(fader)
                },
            None => forall|i: int|
                0 <= i < attempts.len() ==> !(#[trigger] attempts[i]).settles(fader),
        }),
    decreases attempts.len(),
{
    if attempts.len() > 0 {
        let before = attempts.drop_last();
        lemma_last_acknowledged(before, fader);
        assert(forall|i: int| 0 <= i < before.len() ==> before[i] == attempts[i]);
        if attempts.last().settles(fader) {
            let i = attempts.len() - 1;
            assert(attempts[i].settles(fader));
        } else {
            match last_acknowledged(before, fader) {
                Some(channel) => {
                    let i = choose|i: int|
                        {
                            &&& 0 <= i < before.len()
                            &&& (#[trigger] before[i]).settles(fader)
                            &&& before[i].channel == channel
                            &&& forall|j: int|
                                i < j < before.len() ==> !(#[trigger] before[j]).settles(fader)
                        };
                    assert(attempts[i].settles(fader));
                    assert forall|j: int| i < j < attempts.len() implies !(#[trigger] attempts[j])
                        .settles(fader) by {
                        if j < before.len() {
                            assert(!before[j].settles(fader));
                        }
                    }
                },
                None => {
                    assert forall|i: int| 0 <= i < attempts.len() implies !(#[trigger] attempts[i])
                        .settles(fader) by {
                        if i < before.len() {
                            assert(!before[i].settles(fader));
                        }
                    }
                },
            }
        }
    }
}

/// The routing mirrors the device: an assignment that the device
/// acknowledges moves that one fader in the status, and one that it does
/// not acknowledge changes nothing and ends with the transport's error.
pub proof fn lemma_assignment_follows_the_device(
    state: DeviceState,
    fader: FaderName,
    channel: ChannelName,
    reply: TransportReply,
)
    requires
        state.activity is Idle,
    ensures
        ({
            let begun = state.perform_command(GoXLRCommand::AssignFader(fader, channel));
            let end = begun.0.resume(reply);
            &&& begun.0.status == state.status
            &&& begun.1 == Step::Call(TransportCall::SetFader(fader, channel))
            &&& end.0.activity is Idle
            &&& reply is Acknowledged ==> {
                &&& end.1 == Step::Done(Ok(Outcome::FaderAssigned))
                &&& end.0.status == state.status.with_assignment(fader, channel)
                &&& state.status.mixer matches Some(mixer) ==> end.0.status.mixer == Some(
                    mixer.with(fader, channel),
                )
            }
            &&& !(reply is Acknowledged) ==> {
                &&& end.1 == Step::Done(Err(DeviceError::of_reply(reply)))
                &&& end.0.status == state.status
            }
            &&& reply matches TransportReply::Failed(description) ==> end.1 == Step::Done(
                Err(DeviceError::Transport(description)),
            )
        }),
{
}

/// After any sequence of fader assignments, each fader is on the channel of
/// the last assignment that the device acknowledged for it, or where it was
/// if there is none. Nothing else in the status has changed, and
/// `GetStatus` hands out just that status.
pub proof fn lemma_assignments_mirror_the_device(
    state: DeviceState,
    attempts: Seq<Attempt>,
    fader: FaderName,
)
    requires
        state.activity is Idle,
        state.status.mixer is Some,
    ensures
        ({
            let end = assign_each(state, attempts);
            &&& end.activity is Idle
            &&& end.status.device_type == state.status.device_type
            &&& end.status.usb_device == state.status.usb_device
            &&& end.status.mixer is Some
            &&& end.status.mixer->0.channel(fader) == match last_acknowledged(attempts, fader) {
                Some(channel) => channel,
                None => state.status.mixer->0.channel(fader),
            }
            &&& end.perform_command(GoXLRCommand::GetStatus).1 == Step::Done(
                Ok(Outcome::Status(end.status)),
            )
        }),
    decreases attempts.len(),
{
    if attempts.len() > 0 {
        lemma_assignments_mirror_the_device(state, attempts.drop_last(), fader);
        let before = assign_each(state, attempts.drop_last());
        let attempt = attempts.last();
        lemma_assignment_follows_the_device(before, attempt.fader, attempt.channel, attempt.reply);
    }
}

/// `GetStatus` changes nothing, so asking again gives the same snapshot:
/// a copy of the status as it is.
pub proof fn lemma_get_status_is_idempotent(state: DeviceState)
    ensures
        ({
            let first = state.perform_command(GoXLRCommand::GetStatus);
            let second = first.0.perform_command(GoXLRCommand::GetStatus);
            &&& first.0 == state
            &&& second.0 == state
            &&& first.1 == Step::Done(Ok(Outcome::Status(state.status)))
            &&& second.1 == first.1
        }),
{
}

} // verus!
