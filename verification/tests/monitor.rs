use goxlr_device::activity::{DeviceError, Outcome, Step};
use goxlr_device::device::Device;
use goxlr_device::status::DeviceStatus;
use goxlr_device::transport::{
    ButtonStates, TransportCall, TransportReply, INTERRUPT_WAIT_SECONDS,
};
use goxlr_device::types::GoXLRCommand;

fn ready(kernel_driver: bool) -> Device {
    let mut device = Device::new();
    let mut step = device.initialize();
    let replies = vec![
        TransportReply::Descriptor { product_id: 0x8fe4, version: (0, 9, 1) },
        TransportReply::Text(String::from("TC-Helicon")),
        TransportReply::Text(String::from("GoXLR Mini")),
        TransportReply::Flag(true),
        TransportReply::Flag(kernel_driver),
        TransportReply::Number(2),
        TransportReply::Number(5),
        TransportReply::Acknowledged,
        TransportReply::Acknowledged,
        TransportReply::Acknowledged,
        TransportReply::Acknowledged,
    ];
    for reply in replies {
        assert!(matches!(step, Step::Call(_)));
        step = device.resume(reply);
    }
    assert_eq!(step, Step::Done(Ok(Outcome::Initialized)));
    device
}

fn current(device: &mut Device) -> DeviceStatus {
    match device.perform_command(GoXLRCommand::GetStatus) {
        Step::Done(Ok(Outcome::Status(status))) => status,
        other => panic!("GetStatus gave {:?}", other),
    }
}

fn with_flag(status: &DeviceStatus, attached: bool) -> DeviceStatus {
    let mut expected = status.clone();
    if let Some(usb) = &mut expected.usb_device {
        usb.has_kernel_driver_attached = attached;
    }
    expected
}

#[test]
fn the_wait_is_bounded_by_one_second() {
    assert_eq!(INTERRUPT_WAIT_SECONDS, 1);
    let mut device = ready(false);
    assert_eq!(device.monitor_inputs(), Step::Call(TransportCall::KernelDriverActive));
    assert_eq!(
        device.resume(TransportReply::Flag(false)),
        Step::Call(TransportCall::AwaitInterrupt { seconds: 1 })
    );
}

#[test]
fn poll_without_interrupt_ends_well() {
    let mut device = ready(false);
    let before = current(&mut device);
    assert_eq!(device.monitor_inputs(), Step::Call(TransportCall::KernelDriverActive));
    assert_eq!(
        device.resume(TransportReply::Flag(false)),
        Step::Call(TransportCall::AwaitInterrupt { seconds: 1 })
    );
    assert_eq!(
        device.resume(TransportReply::Flag(false)),
        Step::Done(Ok(Outcome::InputsMonitored(None)))
    );
    assert_eq!(device.outstanding_call(), None);
    assert_eq!(current(&mut device), before);
}

#[test]
fn poll_survives_a_failed_button_read() {
    let mut device = ready(false);
    let before = current(&mut device);
    assert_eq!(device.monitor_inputs(), Step::Call(TransportCall::KernelDriverActive));
    assert_eq!(
        device.resume(TransportReply::Flag(true)),
        Step::Call(TransportCall::AwaitInterrupt { seconds: 1 })
    );
    assert_eq!(device.resume(TransportReply::Flag(true)), Step::Call(TransportCall::ButtonStates));
    assert_eq!(
        device.resume(TransportReply::Failed(String::from("short read"))),
        Step::Done(Ok(Outcome::InputsMonitored(None)))
    );
    let after = current(&mut device);
    assert_eq!(after, with_flag(&before, true));
    assert_ne!(after, before);
    assert_eq!(after.mixer, before.mixer);
    assert_eq!(after.device_type, before.device_type);
}

#[test]
fn poll_survives_a_button_read_of_the_wrong_kind() {
    let mut device = ready(true);
    let before = current(&mut device);
    device.monitor_inputs();
    device.resume(TransportReply::Flag(true));
    assert_eq!(device.resume(TransportReply::Flag(true)), Step::Call(TransportCall::ButtonStates));
    assert_eq!(
        device.resume(TransportReply::Number(4)),
        Step::Done(Ok(Outcome::InputsMonitored(None)))
    );
    assert_eq!(current(&mut device), before);
}

#[test]
fn poll_hands_out_the_buttons_read() {
    let mut device = ready(true);
    let before = current(&mut device);
    device.monitor_inputs();
    device.resume(TransportReply::Flag(true));
    device.resume(TransportReply::Flag(true));
    let buttons = ButtonStates { pressed: 0b1010_0001 };
    assert_eq!(
        device.resume(TransportReply::Buttons(buttons)),
        Step::Done(Ok(Outcome::InputsMonitored(Some(ButtonStates { pressed: 161 }))))
    );
    assert_eq!(current(&mut device), before);
}

#[test]
fn poll_refreshes_only_the_kernel_driver_flag() {
    for (initial, refreshed) in [(false, false), (false, true), (true, false), (true, true)] {
        let mut device = ready(initial);
        let before = current(&mut device);
        device.monitor_inputs();
        device.resume(TransportReply::Flag(refreshed));
        let during = current(&mut device);
        assert_eq!(during, with_flag(&before, refreshed));
        device.resume(TransportReply::Flag(false));
        let after = current(&mut device);
        assert_eq!(after, with_flag(&before, refreshed));
        assert_eq!(
            after.usb_device.map(|usb| usb.has_kernel_driver_attached),
            Some(refreshed)
        );
    }
}

#[test]
fn failed_refresh_is_fatal_to_the_poll() {
    let mut device = ready(true);
    let before = current(&mut device);
    assert_eq!(device.monitor_inputs(), Step::Call(TransportCall::KernelDriverActive));
    assert_eq!(
        device.resume(TransportReply::Failed(String::from("no device"))),
        Step::Done(Err(DeviceError::Transport(String::from("no device"))))
    );
    assert_eq!(device.outstanding_call(), None);
    assert_eq!(current(&mut device), before);
}

#[test]
fn refresh_answered_with_the_wrong_kind_is_fatal_to_the_poll() {
    let mut device = ready(true);
    let before = current(&mut device);
    device.monitor_inputs();
    assert_eq!(
        device.resume(TransportReply::Acknowledged),
        Step::Done(Err(DeviceError::UnexpectedReply))
    );
    assert_eq!(current(&mut device), before);
}

#[test]
fn failed_wait_ends_the_poll_with_the_error() {
    let mut device = ready(false);
    device.monitor_inputs();
    device.resume(TransportReply::Flag(true));
    assert_eq!(
        device.resume(TransportReply::Failed(String::from("gone"))),
        Step::Done(Err(DeviceError::Transport(String::from("gone"))))
    );
    let after = current(&mut device);
    assert_eq!(after.usb_device.map(|usb| usb.has_kernel_driver_attached), Some(true));
}

#[test]
fn poll_before_set_up_skips_the_refresh() {
    let mut device = Device::new();
    assert_eq!(
        device.monitor_inputs(),
        Step::Call(TransportCall::AwaitInterrupt { seconds: 1 })
    );
    assert_eq!(device.resume(TransportReply::Flag(true)), Step::Call(TransportCall::ButtonStates));
    assert_eq!(
        device.resume(TransportReply::Buttons(ButtonStates { pressed: 7 })),
        Step::Done(Ok(Outcome::InputsMonitored(Some(ButtonStates { pressed: 7 }))))
    );
    assert_eq!(current(&mut device), DeviceStatus::default());
}

#[test]
fn polls_can_follow_one_another() {
    let mut device = ready(false);
    for round in 0..5u32 {
        let attached = round % 2 == 0;
        assert_eq!(device.monitor_inputs(), Step::Call(TransportCall::KernelDriverActive));
        device.resume(TransportReply::Flag(attached));
        assert_eq!(
            device.resume(TransportReply::Flag(false)),
            Step::Done(Ok(Outcome::InputsMonitored(None)))
        );
        assert_eq!(
            device.status().usb_device.as_ref().map(|usb| usb.has_kernel_driver_attached),
            Some(attached)
        );
    }
}

#[test]
fn operations_are_refused_while_a_poll_is_under_way() {
    let mut device = ready(false);
    device.monitor_inputs();
    assert_eq!(device.monitor_inputs(), Step::Done(Err(DeviceError::Busy)));
    assert_eq!(device.initialize(), Step::Done(Err(DeviceError::Busy)));
    assert_eq!(device.outstanding_call(), Some(TransportCall::KernelDriverActive));
}
