use goxlr_device::activity::{Activity, DeviceError, InitStage, MonitorStage, UsbDetail, UsbStage};
use goxlr_device::status::{
    DeviceStatus, DeviceType, MixerStatus, UsbProductInformation, PID_GOXLR_FULL, PID_GOXLR_MINI,
};
use goxlr_device::transport::{ButtonStates, TransportCall, TransportReply};
use goxlr_device::types::{ChannelName, FaderName};

fn sample_usb() -> UsbProductInformation {
    UsbProductInformation {
        manufacturer_name: String::from("TC-Helicon"),
        product_name: String::from("GoXLR"),
        is_claimed: true,
        has_kernel_driver_attached: false,
        bus_number: 1,
        address: 4,
        version: (1, 2, 3),
    }
}

#[test]
fn product_identifiers() {
    assert_eq!(PID_GOXLR_FULL, 0x8fe0);
    assert_eq!(PID_GOXLR_MINI, 0x8fe4);
    assert_eq!(DeviceType::from_product_id(0x8fe0), DeviceType::Full);
    assert_eq!(DeviceType::from_product_id(0x8fe4), DeviceType::Mini);
    assert_eq!(DeviceType::from_product_id(0x8fe2), DeviceType::Unknown);
}

#[test]
fn every_other_identifier_is_unknown() {
    for product_id in 0..=u16::MAX {
        let expected = if product_id == 0x8fe0 {
            DeviceType::Full
        } else if product_id == 0x8fe4 {
            DeviceType::Mini
        } else {
            DeviceType::Unknown
        };
        assert_eq!(DeviceType::from_product_id(product_id), expected);
    }
}

#[test]
fn defaults_of_the_status_types() {
    assert_eq!(DeviceType::default(), DeviceType::Unknown);
    assert_eq!(
        DeviceStatus::default(),
        DeviceStatus { device_type: DeviceType::Unknown, usb_device: None, mixer: None }
    );
}

#[test]
fn default_channels() {
    assert_eq!(FaderName::A.initial_channel(), ChannelName::Mic);
    assert_eq!(FaderName::B.initial_channel(), ChannelName::Chat);
    assert_eq!(FaderName::C.initial_channel(), ChannelName::Music);
    assert_eq!(FaderName::D.initial_channel(), ChannelName::System);
    assert_eq!(
        MixerStatus::defaults(),
        MixerStatus {
            fader_a_assignment: ChannelName::Mic,
            fader_b_assignment: ChannelName::Chat,
            fader_c_assignment: ChannelName::Music,
            fader_d_assignment: ChannelName::System,
        }
    );
}

#[test]
fn faders_follow_one_another() {
    assert_eq!(FaderName::A.next(), Some(FaderName::B));
    assert_eq!(FaderName::B.next(), Some(FaderName::C));
    assert_eq!(FaderName::C.next(), Some(FaderName::D));
    assert_eq!(FaderName::D.next(), None);
}

#[test]
fn mixer_assign_changes_one_fader() {
    let mut mixer = MixerStatus::defaults();
    mixer.assign(FaderName::C, ChannelName::Game);
    assert_eq!(mixer.assignment(FaderName::A), ChannelName::Mic);
    assert_eq!(mixer.assignment(FaderName::B), ChannelName::Chat);
    assert_eq!(mixer.assignment(FaderName::C), ChannelName::Game);
    assert_eq!(mixer.assignment(FaderName::D), ChannelName::System);
    mixer.assign(FaderName::A, ChannelName::LineOut);
    mixer.assign(FaderName::D, ChannelName::Sample);
    mixer.assign(FaderName::B, ChannelName::Headphones);
    assert_eq!(
        mixer,
        MixerStatus {
            fader_a_assignment: ChannelName::LineOut,
            fader_b_assignment: ChannelName::Headphones,
            fader_c_assignment: ChannelName::Game,
            fader_d_assignment: ChannelName::Sample,
        }
    );
}

#[test]
fn status_clone_is_equal() {
    let status = DeviceStatus {
        device_type: DeviceType::Mini,
        usb_device: Some(sample_usb()),
        mixer: Some(MixerStatus::defaults()),
    };
    assert_eq!(status.clone(), status);
    assert_eq!(sample_usb().clone(), sample_usb());
}

#[test]
fn refresh_kernel_driver_touches_only_the_flag() {
    let status = DeviceStatus {
        device_type: DeviceType::Full,
        usb_device: Some(sample_usb()),
        mixer: Some(MixerStatus::defaults()),
    };
    let refreshed = status.clone().refresh_kernel_driver(true);
    let mut expected_usb = sample_usb();
    expected_usb.has_kernel_driver_attached = true;
    assert_eq!(
        refreshed,
        DeviceStatus {
            device_type: DeviceType::Full,
            usb_device: Some(expected_usb),
            mixer: Some(MixerStatus::defaults()),
        }
    );
    assert_eq!(DeviceStatus::default().refresh_kernel_driver(true), DeviceStatus::default());
}

#[test]
fn assign_fader_touches_only_the_routing() {
    let status = DeviceStatus {
        device_type: DeviceType::Full,
        usb_device: Some(sample_usb()),
        mixer: Some(MixerStatus::defaults()),
    };
    let assigned = status.clone().assign_fader(FaderName::D, ChannelName::Console);
    assert_eq!(assigned.device_type, status.device_type);
    assert_eq!(assigned.usb_device, status.usb_device);
    assert_eq!(
        assigned.mixer,
        Some(MixerStatus {
            fader_a_assignment: ChannelName::Mic,
            fader_b_assignment: ChannelName::Chat,
            fader_c_assignment: ChannelName::Music,
            fader_d_assignment: ChannelName::Console,
        })
    );
    assert_eq!(
        DeviceStatus::default().assign_fader(FaderName::A, ChannelName::Game),
        DeviceStatus::default()
    );
}

#[test]
fn error_of_a_reply() {
    assert_eq!(
        DeviceError::from_reply(TransportReply::Failed(String::from("stall"))),
        DeviceError::Transport(String::from("stall"))
    );
    assert_eq!(DeviceError::from_reply(TransportReply::Acknowledged), DeviceError::UnexpectedReply);
    assert_eq!(DeviceError::from_reply(TransportReply::Flag(true)), DeviceError::UnexpectedReply);
    assert_eq!(DeviceError::from_reply(TransportReply::Number(0)), DeviceError::UnexpectedReply);
    assert_eq!(
        DeviceError::from_reply(TransportReply::Text(String::new())),
        DeviceError::UnexpectedReply
    );
    assert_eq!(
        DeviceError::from_reply(TransportReply::Buttons(ButtonStates { pressed: 0 })),
        DeviceError::UnexpectedReply
    );
    assert_eq!(
        DeviceError::from_reply(TransportReply::Descriptor { product_id: 0, version: (0, 0, 0) }),
        DeviceError::UnexpectedReply
    );
}

#[test]
fn outstanding_call_of_each_activity() {
    assert_eq!(Activity::Idle.outstanding_call(), None);
    assert_eq!(
        Activity::Initializing(InitStage::Descriptor).outstanding_call(),
        Some(TransportCall::Descriptor)
    );
    assert_eq!(
        Activity::Initializing(InitStage::UsbInformation(UsbStage::Manufacturer {
            version: (0, 0, 0)
        }))
        .outstanding_call(),
        Some(TransportCall::Manufacturer)
    );
    assert_eq!(
        Activity::Initializing(InitStage::UsbInformation(UsbStage::ProductName {
            version: (0, 0, 0),
            manufacturer_name: String::from("m"),
        }))
        .outstanding_call(),
        Some(TransportCall::ProductName)
    );
    let details = [
        (UsbDetail::Claimed, TransportCall::IsClaimed),
        (UsbDetail::KernelDriver, TransportCall::KernelDriverActive),
        (UsbDetail::BusNumber, TransportCall::BusNumber),
        (UsbDetail::Address, TransportCall::Address),
    ];
    for (detail, call) in details {
        assert_eq!(
            Activity::Initializing(InitStage::UsbInformation(UsbStage::Detail {
                detail,
                usb: sample_usb(),
            }))
            .outstanding_call(),
            Some(call)
        );
    }
    for fader in [FaderName::A, FaderName::B, FaderName::C, FaderName::D] {
        assert_eq!(
            Activity::Initializing(InitStage::Mixer { fader, usb: sample_usb() })
                .outstanding_call(),
            Some(TransportCall::SetFader(fader, fader.initial_channel()))
        );
    }
    assert_eq!(
        Activity::Monitoring(MonitorStage::KernelDriver).outstanding_call(),
        Some(TransportCall::KernelDriverActive)
    );
    assert_eq!(
        Activity::Monitoring(MonitorStage::Interrupt).outstanding_call(),
        Some(TransportCall::AwaitInterrupt { seconds: 1 })
    );
    assert_eq!(
        Activity::Monitoring(MonitorStage::Buttons).outstanding_call(),
        Some(TransportCall::ButtonStates)
    );
    assert_eq!(
        Activity::Assigning(FaderName::C, ChannelName::Game).outstanding_call(),
        Some(TransportCall::SetFader(FaderName::C, ChannelName::Game))
    );
}
