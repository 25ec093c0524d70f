//! The names of the mixer's faders and of the channels they can carry.

use vstd::prelude::*;

verus! {

/// One of the four physical faders.
#[derive(Clone, Copy, Debug, PartialEq, Eq, Structural, Hash)]
pub enum FaderName {
    A,
    B,
    C,
    D,
}

/// A logical audio source or destination that a fader can be routed to.
#[derive(Clone, Copy, Debug, PartialEq, Eq, Structural, Hash)]
pub enum ChannelName {
    Mic,
    LineIn,
    Console,
    System,
    Game,
    Chat,
    Sample,
    Music,
    Headphones,
    MicMonitor,
    LineOut,
}

impl FaderName {
    /// The fader that follows this one on the device, if any.
    pub open spec fn successor(self) -> Option<FaderName> {
        match self {
            FaderName::A => Some(FaderName::B),
            FaderName::B => Some(FaderName::C),
            FaderName::C => Some(FaderName::D),
            FaderName::D => None,
        }
    }

    /// The channel that this fader carries once the device has been set up:
    /// A carries the microphone, B chat, C music and D system sound.
    pub open spec fn default_channel(self) -> ChannelName {
        match self {
            FaderName::A => ChannelName::Mic,
            FaderName::B => ChannelName::Chat,
            FaderName::C => ChannelName::Music,
            FaderName::D => ChannelName::System,
        }
    }

    /// The fader that follows this one on the device, `None` after the last.
    pub fn next(self) -> (following: Option<FaderName>)
        ensures
            following == self.successor(),
    {
        match self {
            FaderName::A => Some(FaderName::B),
            FaderName::B => Some(FaderName::C),
            FaderName::C => Some(FaderName::D),
            FaderName::D => None,
        }
    }

    /// The channel that this fader is given when the device is set up.
    pub fn initial_channel(self) -> (channel: ChannelName)
        ensures
            channel == self.default_channel(),
    {
        match self {
            FaderName::A => ChannelName::Mic,
            FaderName::B => ChannelName::Chat,
            FaderName::C => ChannelName::Music,
            FaderName::D => ChannelName::System,
        }
    }
}

/// What a caller can ask of the controller.
#[derive(Clone, Copy, Debug, PartialEq, Eq, Structural)]
pub enum GoXLRCommand {
    /// Hand out a copy of the current status.
    GetStatus,
    /// Route the fader to the channel, on the device and then in the status.
    AssignFader(FaderName, ChannelName),
}

} // verus!
