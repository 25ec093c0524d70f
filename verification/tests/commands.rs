use goxlr_device::activity::{DeviceError, Outcome, Step};
use goxlr_device::device::Device;
use goxlr_device::status::{DeviceStatus, MixerStatus};
use goxlr_device::transport::{TransportCall, TransportReply};
use goxlr_device::types::{ChannelName, FaderName, GoXLRCommand};

fn set_up() -> Device {
    let mut device = Device::new();
    let mut step = device.initialize();
    let replies = vec![
        TransportReply::Descriptor { product_id: 0x8fe0, version: (2, 1, 0) },
        TransportReply::Text(String::from("TC-Helicon")),
        TransportReply::Text(String::from("GoXLR")),
        TransportReply::Flag(true),
        TransportReply::Flag(true),
        TransportReply::Number(1),
        TransportReply::Number(9),
        TransportReply::Acknowledged,
        TransportReply::Acknowledged,
        TransportReply::Acknowledged,
        TransportReply::Acknowledged,
    ];
    for reply in replies {
        assert!(matches!(step, Step::Call(_)));
        step = device.resume(reply);
    }
    assert_eq!(step, Step::Done(Ok(Outcome::Initialized)));
    device
}

fn get_status(device: &mut Device) -> DeviceStatus {
    match device.perform_command(GoXLRCommand::GetStatus) {
        Step::Done(Ok(Outcome::Status(status))) => status,
        other => panic!("GetStatus gave {:?}", other),
    }
}

fn assign(
    device: &mut Device,
    fader: FaderName,
    channel: ChannelName,
    reply: TransportReply,
) -> Step {
    let step = device.perform_command(GoXLRCommand::AssignFader(fader, channel));
    assert_eq!(step, Step::Call(TransportCall::SetFader(fader, channel)));
    device.resume(reply)
}

fn routing(device: &mut Device) -> MixerStatus {
    get_status(device).mixer.expect("routing after set-up")
}

#[test]
fn get_status_is_idempotent() {
    let mut device = set_up();
    let first = get_status(&mut device);
    let second = get_status(&mut device);
    let third = get_status(&mut device);
    assert_eq!(first, second);
    assert_eq!(second, third);
    assert_eq!(first, *device.status());
}

#[test]
fn get_status_is_idempotent_before_set_up() {
    let mut device = Device::new();
    let first = get_status(&mut device);
    let second = get_status(&mut device);
    assert_eq!(first, second);
    assert_eq!(first, DeviceStatus::default());
}

#[test]
fn get_status_needs_no_transport_and_works_while_busy() {
    let mut device = set_up();
    let before = get_status(&mut device);
    let step = device.perform_command(GoXLRCommand::AssignFader(FaderName::A, ChannelName::Game));
    assert_eq!(step, Step::Call(TransportCall::SetFader(FaderName::A, ChannelName::Game)));
    assert_eq!(get_status(&mut device), before);
    assert_eq!(
        device.outstanding_call(),
        Some(TransportCall::SetFader(FaderName::A, ChannelName::Game))
    );
    assert_eq!(device.resume(TransportReply::Acknowledged), Step::Done(Ok(Outcome::FaderAssigned)));
}

#[test]
fn acknowledged_assignment_moves_one_fader() {
    let mut device = set_up();
    let before = get_status(&mut device);
    let end = assign(&mut device, FaderName::B, ChannelName::Game, TransportReply::Acknowledged);
    assert_eq!(end, Step::Done(Ok(Outcome::FaderAssigned)));
    let after = get_status(&mut device);
    assert_eq!(
        after.mixer,
        Some(MixerStatus {
            fader_a_assignment: ChannelName::Mic,
            fader_b_assignment: ChannelName::Game,
            fader_c_assignment: ChannelName::Music,
            fader_d_assignment: ChannelName::System,
        })
    );
    assert_eq!(after.device_type, before.device_type);
    assert_eq!(after.usb_device, before.usb_device);
}

#[test]
fn each_fader_is_matched_to_its_own_field() {
    let cases = [
        (FaderName::A, ChannelName::LineIn),
        (FaderName::B, ChannelName::Console),
        (FaderName::C, ChannelName::Sample),
        (FaderName::D, ChannelName::Headphones),
    ];
    for (fader, channel) in cases {
        let mut device = set_up();
        assign(&mut device, fader, channel, TransportReply::Acknowledged);
        let mixer = routing(&mut device);
        for other in [FaderName::A, FaderName::B, FaderName::C, FaderName::D] {
            if other == fader {
                assert_eq!(mixer.assignment(other), channel);
            } else {
                assert_eq!(mixer.assignment(other), MixerStatus::defaults().assignment(other));
            }
        }
    }
}

#[test]
fn failed_assignment_leaves_the_mirror_unchanged() {
    let mut device = set_up();
    let before = get_status(&mut device);
    let end = assign(
        &mut device,
        FaderName::C,
        ChannelName::LineOut,
        TransportReply::Failed(String::from("timeout")),
    );
    assert_eq!(end, Step::Done(Err(DeviceError::Transport(String::from("timeout")))));
    assert_eq!(get_status(&mut device), before);
    assert_eq!(device.outstanding_call(), None);
}

#[test]
fn assignment_answered_with_the_wrong_kind_leaves_the_mirror_unchanged() {
    let mut device = set_up();
    let before = get_status(&mut device);
    let end = assign(&mut device, FaderName::D, ChannelName::Mic, TransportReply::Flag(true));
    assert_eq!(end, Step::Done(Err(DeviceError::UnexpectedReply)));
    assert_eq!(get_status(&mut device), before);
}

#[test]
fn last_acknowledged_assignment_wins_per_fader() {
    let mut device = set_up();
    let attempts = [
        (FaderName::A, ChannelName::Game, true),
        (FaderName::B, ChannelName::Sample, true),
        (FaderName::A, ChannelName::Console, true),
        (FaderName::A, ChannelName::LineIn, false),
        (FaderName::D, ChannelName::MicMonitor, false),
        (FaderName::B, ChannelName::Music, true),
    ];
    for (fader, channel, acknowledged) in attempts {
        let reply = if acknowledged {
            TransportReply::Acknowledged
        } else {
            TransportReply::Failed(String::from("nak"))
        };
        let end = assign(&mut device, fader, channel, reply);
        if acknowledged {
            assert_eq!(end, Step::Done(Ok(Outcome::FaderAssigned)));
        } else {
            assert_eq!(end, Step::Done(Err(DeviceError::Transport(String::from("nak")))));
        }
    }
    assert_eq!(
        routing(&mut device),
        MixerStatus {
            fader_a_assignment: ChannelName::Console,
            fader_b_assignment: ChannelName::Music,
            fader_c_assignment: ChannelName::Music,
            fader_d_assignment: ChannelName::System,
        }
    );
}

#[test]
fn assignment_before_set_up_reaches_the_device_but_no_mirror() {
    let mut device = Device::new();
    let end = assign(&mut device, FaderName::A, ChannelName::Chat, TransportReply::Acknowledged);
    assert_eq!(end, Step::Done(Ok(Outcome::FaderAssigned)));
    assert_eq!(get_status(&mut device), DeviceStatus::default());
}

#[test]
fn a_second_assignment_is_refused_while_one_is_under_way() {
    let mut device = set_up();
    let step = device.perform_command(GoXLRCommand::AssignFader(FaderName::A, ChannelName::Game));
    assert!(matches!(step, Step::Call(_)));
    assert_eq!(
        device.perform_command(GoXLRCommand::AssignFader(FaderName::B, ChannelName::Game)),
        Step::Done(Err(DeviceError::Busy))
    );
    assert_eq!(device.resume(TransportReply::Acknowledged), Step::Done(Ok(Outcome::FaderAssigned)));
    let mixer = routing(&mut device);
    assert_eq!(mixer.assignment(FaderName::A), ChannelName::Game);
    assert_eq!(mixer.assignment(FaderName::B), ChannelName::Chat);
}
