use xhci::ring::trb::event::{
    Allowed, BandwidthRequest, CommandCompletion, CompletionCode, DeviceNotification, Doorbell,
    HostController, MfindexWrap, PortStatusChange, TransferEvent,
};
use xhci::ring::trb::Type;

#[test]
fn transfer_event_reads_back_its_fields() {
    let raw = [0x1000, 0, (1 << 24) | 64, (32 << 10) | (3 << 16) | (1 << 24)];
    assert_eq!(raw, [0x0000_1000, 0, 0x0100_0040, 0x0103_8000]);
    let event = TransferEvent::try_from(raw).expect("a valid Transfer Event TRB");
    let back = TransferEvent::try_from(event.into_raw()).expect("the words of a Transfer Event");
    assert_eq!(back, event);
    assert_eq!(back.trb_pointer(), 0x1000);
    assert_eq!(back.trb_transfer_length(), 64);
    assert_eq!(back.endpoint_id(), 3);
    assert_eq!(back.slot_id(), 1);
    assert_eq!(back.completion_code(), Ok(CompletionCode::Success));
    assert!(!back.event_data());
    assert!(!back.cycle_bit());
    assert_eq!(back.into_raw(), raw);
}

#[test]
fn transfer_event_reads_back_through_allowed() {
    let raw = [0x1000, 0, 0x0100_0040, 0x0103_8000];
    match Allowed::try_from(raw) {
        Ok(Allowed::TransferEvent(event)) => {
            assert_eq!(event.trb_pointer(), 0x1000);
            assert_eq!(event.trb_transfer_length(), 64);
            assert_eq!(event.endpoint_id(), 3);
            assert_eq!(event.slot_id(), 1);
            assert_eq!(event.completion_code(), Ok(CompletionCode::Success));
        }
        other => panic!("not a Transfer Event: {:?}", other),
    }
}

#[test]
fn new_sets_the_type_and_nothing_else() {
    assert_eq!(TransferEvent::new().into_raw(), [0, 0, 0, 0x8000]);
    assert_eq!(CommandCompletion::new().into_raw(), [0, 0, 0, 0x8400]);
    assert_eq!(PortStatusChange::new().into_raw(), [0, 0, 0, 0x8800]);
    assert_eq!(BandwidthRequest::new().into_raw(), [0, 0, 0, 0x8c00]);
    assert_eq!(Doorbell::new().into_raw(), [0, 0, 0, 0x9000]);
    assert_eq!(HostController::new().into_raw(), [0, 0, 0, 0x9400]);
    assert_eq!(DeviceNotification::new().into_raw(), [0, 0, 0, 0x9800]);
    assert_eq!(MfindexWrap::new().into_raw(), [0, 0, 0, 0x9c00]);
}

#[test]
fn new_writes_the_number_of_the_type_at_bit_ten() {
    assert_eq!(TransferEvent::new().into_raw()[3], u32::from(Type::TransferEvent.value()) << 10);
    assert_eq!(
        CommandCompletion::new().into_raw()[3],
        u32::from(Type::CommandCompletion.value()) << 10
    );
    assert_eq!(
        PortStatusChange::new().into_raw()[3],
        u32::from(Type::PortStatusChange.value()) << 10
    );
    assert_eq!(
        BandwidthRequest::new().into_raw()[3],
        u32::from(Type::BandwidthRequest.value()) << 10
    );
    assert_eq!(Doorbell::new().into_raw()[3], u32::from(Type::Doorbell.value()) << 10);
    assert_eq!(HostController::new().into_raw()[3], u32::from(Type::HostController.value()) << 10);
    assert_eq!(
        DeviceNotification::new().into_raw()[3],
        u32::from(Type::DeviceNotification.value()) << 10
    );
    assert_eq!(MfindexWrap::new().into_raw()[3], u32::from(Type::MfindexWrap.value()) << 10);
}

#[test]
fn default_is_new() {
    assert_eq!(TransferEvent::default(), TransferEvent::new());
    assert_eq!(CommandCompletion::default(), CommandCompletion::new());
    assert_eq!(PortStatusChange::default(), PortStatusChange::new());
    assert_eq!(BandwidthRequest::default(), BandwidthRequest::new());
    assert_eq!(Doorbell::default(), Doorbell::new());
    assert_eq!(HostController::default(), HostController::new());
    assert_eq!(DeviceNotification::default(), DeviceNotification::new());
    assert_eq!(MfindexWrap::default(), MfindexWrap::new());
}

#[test]
fn new_reads_as_zero_everywhere() {
    let t = TransferEvent::new();
    assert_eq!(t.trb_pointer(), 0);
    assert_eq!(t.trb_transfer_length(), 0);
    assert!(!t.event_data());
    assert_eq!(t.endpoint_id(), 0);
    assert_eq!(t.slot_id(), 0);
    assert!(!t.cycle_bit());
    assert_eq!(t.completion_code(), Ok(CompletionCode::Invalid));
    let c = CommandCompletion::new();
    assert_eq!(c.command_trb_pointer(), 0);
    assert_eq!(c.command_completion_parameter(), 0);
    assert_eq!(c.vf_id(), 0);
    assert_eq!(c.slot_id(), 0);
    assert_eq!(PortStatusChange::new().port_id(), 0);
    assert_eq!(BandwidthRequest::new().slot_id(), 0);
    assert_eq!(Doorbell::new().db_reason(), 0);
    assert_eq!(HostController::new().completion_code(), Ok(CompletionCode::Invalid));
    let d = DeviceNotification::new();
    assert_eq!(d.notification_type(), 0);
    assert_eq!(d.device_notification_data(), 0);
    assert_eq!(d.slot_id(), 0);
    assert!(!MfindexWrap::new().cycle_bit());
}

#[test]
fn transfer_event_fields() {
    let raw = [0x89ab_cdef, 0x0123_4567, 0x0dfe_dcba, 0xa515_8005];
    let event = TransferEvent::try_from(raw).expect("no reserved bit is set");
    assert_eq!(event.trb_pointer(), 0x0123_4567_89ab_cdef);
    assert_eq!(event.trb_transfer_length(), 0x00fe_dcba);
    assert!(event.event_data());
    assert_eq!(event.endpoint_id(), 0x15);
    assert_eq!(event.slot_id(), 0xa5);
    assert!(event.cycle_bit());
    assert_eq!(event.completion_code(), Ok(CompletionCode::ShortPacket));
}

#[test]
fn transfer_event_pointer_joins_both_words() {
    let event = TransferEvent::try_from([0xffff_ffff, 0, 0, 0x8000]).expect("valid");
    assert_eq!(event.trb_pointer(), 0x0000_0000_ffff_ffff);
    let event = TransferEvent::try_from([0, 0xffff_ffff, 0, 0x8000]).expect("valid");
    assert_eq!(event.trb_pointer(), 0xffff_ffff_0000_0000);
    let event = TransferEvent::try_from([1, 1, 0, 0x8000]).expect("valid");
    assert_eq!(event.trb_pointer(), (1 << 32) + 1);
}

#[test]
fn transfer_event_widest_fields() {
    let raw = [0, 0, 0x00ff_ffff, 0xff1f_8000];
    let event = TransferEvent::try_from(raw).expect("no reserved bit is set");
    assert_eq!(event.trb_transfer_length(), 0x00ff_ffff);
    assert_eq!(event.endpoint_id(), 31);
    assert_eq!(event.slot_id(), 255);
    assert!(!event.event_data());
    assert_eq!(event.completion_code(), Ok(CompletionCode::Invalid));
}

#[test]
fn command_completion_fields() {
    let raw = [0x89ab_cdf0, 0x0123_4567, 0x0b12_3456, 0x7f3c_8401];
    let event = CommandCompletion::try_from(raw).expect("no reserved bit is set");
    assert_eq!(event.command_trb_pointer(), 0x0123_4567_89ab_cdf0);
    assert_eq!(event.command_completion_parameter(), 0x0012_3456);
    assert_eq!(event.vf_id(), 0x3c);
    assert_eq!(event.slot_id(), 0x7f);
    assert!(event.cycle_bit());
    assert_eq!(event.completion_code(), Ok(CompletionCode::SlotNotEnabledError));
}

#[test]
fn port_status_change_fields() {
    let raw = [0x2a00_0000, 0, 0x0100_0000, 0x8800];
    let event = PortStatusChange::try_from(raw).expect("no reserved bit is set");
    assert_eq!(event.port_id(), 42);
    assert_eq!(event.completion_code(), Ok(CompletionCode::Success));
    assert!(!event.cycle_bit());
}

#[test]
fn bandwidth_request_fields() {
    let raw = [0, 0, 0x0100_0000, 0x0900_8c01];
    let event = BandwidthRequest::try_from(raw).expect("no reserved bit is set");
    assert_eq!(event.slot_id(), 9);
    assert_eq!(event.completion_code(), Ok(CompletionCode::Success));
    assert!(event.cycle_bit());
}

#[test]
fn doorbell_fields() {
    let raw = [0x1f, 0, 0x0100_0000, 0xffff_9000];
    let event = Doorbell::try_from(raw).expect("no reserved bit is set");
    assert_eq!(event.db_reason(), 31);
    assert_eq!(event.completion_code(), Ok(CompletionCode::Success));
    let raw = [0x0a, 0, 0x2100_0000, 0x9001];
    let event = Doorbell::try_from(raw).expect("no reserved bit is set");
    assert_eq!(event.db_reason(), 10);
    assert_eq!(event.completion_code(), Ok(CompletionCode::UndefinedError));
    assert!(event.cycle_bit());
}

#[test]
fn host_controller_fields() {
    let raw = [0, 0, 0x2000_0000, 0x9401];
    let event = HostController::try_from(raw).expect("no reserved bit is set");
    assert_eq!(event.completion_code(), Ok(CompletionCode::EventLostError));
    assert!(event.cycle_bit());
}

#[test]
fn mfindex_wrap_fields() {
    let raw = [0xffff_fff0, 0xffff_ffff, 0x0100_0000, 0xff00_9c00];
    let event = MfindexWrap::try_from(raw).expect("no reserved bit is set");
    assert_eq!(event.completion_code(), Ok(CompletionCode::Success));
    assert!(!event.cycle_bit());
    assert_eq!(event.into_raw(), raw);
}

#[test]
fn device_notification_fields() {
    let raw = [0xabcd_ef00, 0x1234_5678, 0x0100_0000, 0x9801];
    let event = DeviceNotification::try_from(raw).expect("no reserved bit is set");
    assert_eq!(event.notification_type(), 0);
    assert_eq!(event.device_notification_data(), 0x0012_3456_78ab_cdef);
    assert_eq!(event.slot_id(), 0);
    assert!(event.cycle_bit());
    assert_eq!(event.completion_code(), Ok(CompletionCode::Success));
}

#[test]
fn device_notification_data_in_numbers() {
    let raw = [0x0001_0000, 1, 0, 0x9800];
    let event = DeviceNotification::try_from(raw).expect("no reserved bit is set");
    assert_eq!(event.device_notification_data(), (1 << 24) + 0x100);
    let raw = [0xffff_ff00, 0xffff_ffff, 0, 0x9800];
    let event = DeviceNotification::try_from(raw).expect("no reserved bit is set");
    assert_eq!(event.device_notification_data(), 0x00ff_ffff_ffff_ffff);
    let raw = [0x0000_ff00, 0, 0, 0x9800];
    let event = DeviceNotification::try_from(raw).expect("no reserved bit is set");
    assert_eq!(event.device_notification_data(), 0xff);
}

#[test]
fn device_notification_data_starts_at_bit_eight_of_word_zero() {
    let raw = [0x0000_0100, 0, 0, 0x9800];
    let event = DeviceNotification::try_from(raw).expect("no reserved bit is set");
    assert_eq!(event.device_notification_data(), 1);
    let raw = [0x8000_0000, 0, 0, 0x9800];
    let event = DeviceNotification::try_from(raw).expect("no reserved bit is set");
    assert_eq!(event.device_notification_data(), 1 << 23);
    let raw = [0, 1, 0, 0x9800];
    let event = DeviceNotification::try_from(raw).expect("no reserved bit is set");
    assert_eq!(event.device_notification_data(), 1 << 24);
    let raw = [0, 0x8000_0000, 0, 0x9800];
    let event = DeviceNotification::try_from(raw).expect("no reserved bit is set");
    assert_eq!(event.device_notification_data(), 1 << 55);
}

#[test]
fn device_notification_reserves_the_low_byte_of_word_zero() {
    for bit in 0..8 {
        let raw = [1 << bit, 0, 0, 0x9800];
        assert_eq!(DeviceNotification::try_from(raw), Err(raw));
    }
    for bit in 8..32 {
        let raw = [1 << bit, 0, 0, 0x9800];
        assert!(DeviceNotification::try_from(raw).is_ok());
        let raw = [0, 1 << bit, 0, 0x9800];
        assert!(DeviceNotification::try_from(raw).is_ok());
    }
}

#[test]
fn set_cycle_bit_writes_bit_zero_of_word_three() {
    let mut event = TransferEvent::new();
    event.set_cycle_bit(true);
    assert!(event.cycle_bit());
    assert_eq!(event.into_raw(), [0, 0, 0, 0x8001]);
    event.set_cycle_bit(true);
    assert_eq!(event.into_raw(), [0, 0, 0, 0x8001]);
    event.set_cycle_bit(false);
    assert!(!event.cycle_bit());
    assert_eq!(event.into_raw(), [0, 0, 0, 0x8000]);
}

#[test]
fn set_cycle_bit_chains() {
    let mut event = Doorbell::new();
    event.set_cycle_bit(true).set_cycle_bit(false).set_cycle_bit(true);
    assert!(event.cycle_bit());
    assert_eq!(event.into_raw(), [0, 0, 0, 0x9001]);
}

#[test]
fn set_cycle_bit_on_every_type() {
    let mut a = CommandCompletion::new();
    assert_eq!(a.set_cycle_bit(true).into_raw(), [0, 0, 0, 0x8401]);
    let mut a = PortStatusChange::new();
    assert_eq!(a.set_cycle_bit(true).into_raw(), [0, 0, 0, 0x8801]);
    let mut a = BandwidthRequest::new();
    assert_eq!(a.set_cycle_bit(true).into_raw(), [0, 0, 0, 0x8c01]);
    let mut a = HostController::new();
    assert_eq!(a.set_cycle_bit(true).into_raw(), [0, 0, 0, 0x9401]);
    let mut a = DeviceNotification::new();
    assert_eq!(a.set_cycle_bit(true).into_raw(), [0, 0, 0, 0x9801]);
    let mut a = MfindexWrap::new();
    assert_eq!(a.set_cycle_bit(true).into_raw(), [0, 0, 0, 0x9c01]);
}

#[test]
fn set_cycle_bit_keeps_the_other_fields() {
    let raw = [0x89ab_cdef, 0x0123_4567, 0x0dfe_dcba, 0xa515_8004];
    let mut event = TransferEvent::try_from(raw).expect("no reserved bit is set");
    let before = event;
    event.set_cycle_bit(true);
    assert!(event.cycle_bit());
    assert_eq!(event.trb_pointer(), before.trb_pointer());
    assert_eq!(event.trb_transfer_length(), before.trb_transfer_length());
    assert_eq!(event.event_data(), before.event_data());
    assert_eq!(event.endpoint_id(), before.endpoint_id());
    assert_eq!(event.slot_id(), before.slot_id());
    assert_eq!(event.completion_code(), before.completion_code());
    assert_eq!(event.into_raw(), [raw[0], raw[1], raw[2], raw[3] | 1]);
    event.set_cycle_bit(false);
    assert_eq!(event, before);
}

#[test]
fn conversions_give_the_words() {
    let raw = [0x0000_1000, 0, 0x0100_0040, 0x0103_8000];
    let event = TransferEvent::try_from(raw).expect("valid");
    let words: [u32; 4] = event.into();
    assert_eq!(words, raw);
    let slice: &[u32] = event.as_ref();
    assert_eq!(slice, &raw[..]);
    let words: [u32; 4] = Doorbell::new().into();
    assert_eq!(words, [0, 0, 0, 0x9000]);
    let event = MfindexWrap::new();
    let slice: &[u32] = event.as_ref();
    assert_eq!(slice, &[0, 0, 0, 0x9c00][..]);
}

#[test]
fn events_compare_by_their_words() {
    let low = TransferEvent::try_from([0, 0, 0, 0x8000]).expect("valid");
    let high = TransferEvent::try_from([1, 0, 0, 0x8000]).expect("valid");
    assert!(low < high);
    assert_ne!(low, high);
    assert_eq!(low, TransferEvent::new());
}
