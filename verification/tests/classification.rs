use xhci::ring::trb::event::{
    Allowed, BandwidthRequest, CommandCompletion, DeviceNotification, Doorbell, HostController,
    MfindexWrap, PortStatusChange, TransferEvent, BANDWIDTH_REQUEST_RESERVED,
    COMMAND_COMPLETION_RESERVED, DEVICE_NOTIFICATION_RESERVED, DOORBELL_RESERVED,
    HOST_CONTROLLER_RESERVED, MFINDEX_WRAP_RESERVED, PORT_STATUS_CHANGE_RESERVED,
    TRANSFER_EVENT_RESERVED,
};
use xhci::ring::trb::{conforms_to, Link, ReservedRange, Type};

/// The number of the type that `classify` finds, or `None` where it fails. A failure must hand
/// the words back.
fn kind(raw: [u32; 4]) -> Option<u8> {
    match Allowed::try_from(raw) {
        Ok(allowed) => {
            assert_eq!(allowed.into_raw(), raw);
            Some(match allowed {
                Allowed::TransferEvent(_) => 32,
                Allowed::CommandCompletion(_) => 33,
                Allowed::PortStatusChange(_) => 34,
                Allowed::BandwidthRequest(_) => 35,
                Allowed::Doorbell(_) => 36,
                Allowed::HostController(_) => 37,
                Allowed::DeviceNotification(_) => 38,
                Allowed::MfindexWrap(_) => 39,
            })
        }
        Err(words) => {
            assert_eq!(words, raw);
            None
        }
    }
}

/// Which of the eight validators accept `raw`, in the order of the numbers 32 to 39.
fn accepted(raw: [u32; 4]) -> [bool; 8] {
    assert!(TransferEvent::try_from(raw).map_or_else(|e| e == raw, |t| t.into_raw() == raw));
    assert!(CommandCompletion::try_from(raw).map_or_else(|e| e == raw, |t| t.into_raw() == raw));
    assert!(PortStatusChange::try_from(raw).map_or_else(|e| e == raw, |t| t.into_raw() == raw));
    assert!(BandwidthRequest::try_from(raw).map_or_else(|e| e == raw, |t| t.into_raw() == raw));
    assert!(Doorbell::try_from(raw).map_or_else(|e| e == raw, |t| t.into_raw() == raw));
    assert!(HostController::try_from(raw).map_or_else(|e| e == raw, |t| t.into_raw() == raw));
    assert!(DeviceNotification::try_from(raw).map_or_else(|e| e == raw, |t| t.into_raw() == raw));
    assert!(MfindexWrap::try_from(raw).map_or_else(|e| e == raw, |t| t.into_raw() == raw));
    [
        TransferEvent::try_from(raw).is_ok(),
        CommandCompletion::try_from(raw).is_ok(),
        PortStatusChange::try_from(raw).is_ok(),
        BandwidthRequest::try_from(raw).is_ok(),
        Doorbell::try_from(raw).is_ok(),
        HostController::try_from(raw).is_ok(),
        DeviceNotification::try_from(raw).is_ok(),
        MfindexWrap::try_from(raw).is_ok(),
    ]
}

fn fresh_words() -> [[u32; 4]; 8] {
    [
        TransferEvent::new().into_raw(),
        CommandCompletion::new().into_raw(),
        PortStatusChange::new().into_raw(),
        BandwidthRequest::new().into_raw(),
        Doorbell::new().into_raw(),
        HostController::new().into_raw(),
        DeviceNotification::new().into_raw(),
        MfindexWrap::new().into_raw(),
    ]
}

fn tables() -> [&'static [ReservedRange]; 8] {
    [
        &TRANSFER_EVENT_RESERVED,
        &COMMAND_COMPLETION_RESERVED,
        &PORT_STATUS_CHANGE_RESERVED,
        &BANDWIDTH_REQUEST_RESERVED,
        &DOORBELL_RESERVED,
        &HOST_CONTROLLER_RESERVED,
        &DEVICE_NOTIFICATION_RESERVED,
        &MFINDEX_WRAP_RESERVED,
    ]
}

/// Words with every bit set that the type of number `32 + index` does not reserve, and the
/// number of the type in the TRB Type field.
fn fullest(index: usize) -> [u32; 4] {
    let mut raw = [0xffff_ffffu32; 4];
    for &(word, lo, hi) in tables()[index] {
        for bit in lo..=hi {
            raw[word] &= !(1 << bit);
        }
    }
    raw[3] = (raw[3] & !(0x3f << 10)) | ((32 + index as u32) << 10);
    raw
}

#[test]
fn reserved_tables_are_those_of_the_catalog() {
    assert_eq!(TRANSFER_EVENT_RESERVED, [(3, 1, 1), (3, 3, 9), (3, 21, 23)]);
    assert_eq!(COMMAND_COMPLETION_RESERVED, [(0, 0, 3), (3, 1, 9)]);
    assert_eq!(
        PORT_STATUS_CHANGE_RESERVED,
        [(0, 0, 23), (1, 0, 31), (2, 0, 23), (3, 1, 9), (3, 16, 31)]
    );
    assert_eq!(
        BANDWIDTH_REQUEST_RESERVED,
        [(0, 0, 31), (1, 0, 31), (2, 0, 23), (3, 1, 9), (3, 16, 23)]
    );
    assert_eq!(DOORBELL_RESERVED, [(0, 5, 31), (1, 0, 31), (2, 0, 23), (3, 1, 9)]);
    assert_eq!(
        HOST_CONTROLLER_RESERVED,
        [(0, 0, 31), (1, 0, 31), (2, 0, 23), (3, 1, 9), (3, 16, 31)]
    );
    assert_eq!(DEVICE_NOTIFICATION_RESERVED, [(0, 0, 7), (2, 0, 23), (3, 1, 9), (3, 16, 31)]);
    assert_eq!(MFINDEX_WRAP_RESERVED, [(0, 0, 3), (2, 0, 23), (3, 1, 9), (3, 16, 23)]);
}

#[test]
fn classify_finds_each_type() {
    for (index, raw) in fresh_words().into_iter().enumerate() {
        assert_eq!(kind(raw), Some(32 + index as u8));
    }
}

#[test]
fn classify_wraps_the_words_unchanged() {
    let raw = [0x89ab_cdef, 0x0123_4567, 0x0dfe_dcba, 0xa515_8005];
    match Allowed::try_from(raw) {
        Ok(Allowed::TransferEvent(event)) => {
            assert_eq!(event, TransferEvent::try_from(raw).expect("valid"));
            assert_eq!(event.into_raw(), raw);
        }
        other => panic!("not a Transfer Event: {:?}", other),
    }
}

#[test]
fn classify_rejects_the_zero_record() {
    assert_eq!(Allowed::try_from([0, 0, 0, 0]), Err([0, 0, 0, 0]));
    assert_eq!(accepted([0, 0, 0, 0]), [false; 8]);
}

#[test]
fn classify_rejects_every_other_type_number() {
    for n in (0..32u32).chain(40..64) {
        let raw = [0, 0, 0, n << 10];
        assert_eq!(Allowed::try_from(raw), Err(raw));
        assert_eq!(accepted(raw), [false; 8]);
    }
}

#[test]
fn classify_rejects_a_link_trb() {
    let raw = Link::new().into_raw();
    assert_eq!(raw, [0, 0, 0, 0x1800]);
    assert_eq!(Allowed::try_from(raw), Err(raw));
}

#[test]
fn classify_rejects_a_known_type_with_a_reserved_bit() {
    let raw = [0, 0, 0, 0x8000 | 2];
    assert_eq!(Allowed::try_from(raw), Err(raw));
    let raw = [1, 0, 0, 0x8400];
    assert_eq!(Allowed::try_from(raw), Err(raw));
    let raw = [0, 0, 1, 0x9400];
    assert_eq!(Allowed::try_from(raw), Err(raw));
}

#[test]
fn classify_accepts_every_bit_that_is_not_reserved() {
    for index in 0..8 {
        let raw = fullest(index);
        assert_eq!(kind(raw), Some(32 + index as u8));
        let mut only = [false; 8];
        only[index] = true;
        assert_eq!(accepted(raw), only);
    }
    assert_eq!(fullest(0), [0xffff_ffff, 0xffff_ffff, 0xffff_ffff, 0xff1f_8005]);
    assert_eq!(fullest(5), [0, 0, 0xff00_0000, 0x0000_9401]);
}

#[test]
fn round_trip_of_new() {
    assert_eq!(
        Allowed::try_from(TransferEvent::new().into_raw()),
        Ok(Allowed::TransferEvent(TransferEvent::new()))
    );
    assert_eq!(
        Allowed::try_from(CommandCompletion::new().into_raw()),
        Ok(Allowed::CommandCompletion(CommandCompletion::new()))
    );
    assert_eq!(
        Allowed::try_from(PortStatusChange::new().into_raw()),
        Ok(Allowed::PortStatusChange(PortStatusChange::new()))
    );
    assert_eq!(
        Allowed::try_from(BandwidthRequest::new().into_raw()),
        Ok(Allowed::BandwidthRequest(BandwidthRequest::new()))
    );
    assert_eq!(
        Allowed::try_from(Doorbell::new().into_raw()),
        Ok(Allowed::Doorbell(Doorbell::new()))
    );
    assert_eq!(
        Allowed::try_from(HostController::new().into_raw()),
        Ok(Allowed::HostController(HostController::new()))
    );
    assert_eq!(
        Allowed::try_from(DeviceNotification::new().into_raw()),
        Ok(Allowed::DeviceNotification(DeviceNotification::new()))
    );
    assert_eq!(
        Allowed::try_from(MfindexWrap::new().into_raw()),
        Ok(Allowed::MfindexWrap(MfindexWrap::new()))
    );
}

#[test]
fn round_trip_after_setters() {
    let mut event = TransferEvent::new();
    event.set_cycle_bit(true);
    assert_eq!(TransferEvent::try_from(event.into_raw()), Ok(event));
    assert_eq!(Allowed::try_from(event.into_raw()), Ok(Allowed::TransferEvent(event)));
    event.set_cycle_bit(false).set_cycle_bit(true).set_cycle_bit(false);
    assert_eq!(TransferEvent::try_from(event.into_raw()), Ok(event));
    assert_eq!(Allowed::try_from(event.into_raw()), Ok(Allowed::TransferEvent(event)));
    let mut event = PortStatusChange::new();
    event.set_cycle_bit(true);
    assert_eq!(PortStatusChange::try_from(event.into_raw()), Ok(event));
    assert_eq!(Allowed::try_from(event.into_raw()), Ok(Allowed::PortStatusChange(event)));
}

#[test]
fn round_trip_of_classified_words() {
    for index in 0..8 {
        let allowed = Allowed::try_from(fullest(index)).expect("valid");
        assert_eq!(Allowed::try_from(allowed.into_raw()), Ok(allowed));
        let mut toggled = allowed;
        toggled.set_cycle_bit(!allowed.cycle_bit());
        assert_eq!(Allowed::try_from(toggled.into_raw()), Ok(toggled));
    }
}

#[test]
fn types_are_disjoint() {
    for (index, raw) in fresh_words().into_iter().enumerate() {
        let mut only = [false; 8];
        only[index] = true;
        assert_eq!(accepted(raw), only);
    }
}

#[test]
fn new_of_one_type_fails_the_validator_of_another() {
    let raw = TransferEvent::new().into_raw();
    assert_eq!(CommandCompletion::try_from(raw), Err(raw));
    assert_eq!(MfindexWrap::try_from(raw), Err(raw));
    let raw = MfindexWrap::new().into_raw();
    assert_eq!(TransferEvent::try_from(raw), Err(raw));
    assert_eq!(HostController::try_from(raw), Err(raw));
    let raw = HostController::new().into_raw();
    assert_eq!(PortStatusChange::try_from(raw), Err(raw));
    assert_eq!(DeviceNotification::try_from(raw), Err(raw));
}

#[test]
fn every_reserved_bit_is_rejected() {
    for index in 0..8 {
        for start in [fresh_words()[index], fullest(index)] {
            for &(word, lo, hi) in tables()[index] {
                for bit in lo..=hi {
                    let mut dirty = start;
                    dirty[word] |= 1 << bit;
                    assert_ne!(dirty, start);
                    assert_eq!(Allowed::try_from(dirty), Err(dirty));
                    assert_eq!(accepted(dirty), [false; 8]);
                }
            }
        }
    }
}

#[test]
fn a_whole_reserved_range_is_rejected() {
    let raw = [0, 0, 0, 0x8000 | (0x7f << 3)];
    assert_eq!(TransferEvent::try_from(raw), Err(raw));
    let raw = [0, 0xffff_ffff, 0, 0x8800];
    assert_eq!(PortStatusChange::try_from(raw), Err(raw));
    let raw = [0xffff_ffe0, 0, 0, 0x9000];
    assert_eq!(Doorbell::try_from(raw), Err(raw));
}

#[test]
fn cycle_bit_does_not_change_the_classification() {
    let mut samples: Vec<[u32; 4]> = Vec::new();
    samples.extend(fresh_words());
    samples.extend((0..8).map(fullest));
    samples.push([0, 0, 0, 0]);
    samples.push([0, 0, 0, 0x1800]);
    samples.push([1, 0, 0, 0x8400]);
    samples.push([0, 0, 0, 0x8002]);
    samples.push([0xffff_ffff; 4]);
    for raw in samples {
        let set = [raw[0], raw[1], raw[2], raw[3] | 1];
        let clear = [raw[0], raw[1], raw[2], raw[3] & !1];
        assert_eq!(kind(set), kind(clear));
        assert_eq!(accepted(set), accepted(clear));
    }
}

#[test]
fn allowed_set_cycle_bit_keeps_the_type_and_the_fields() {
    let raw = [0x89ab_cdef, 0x0123_4567, 0x0dfe_dcba, 0xa515_8004];
    let mut allowed = Allowed::try_from(raw).expect("valid");
    assert!(!allowed.cycle_bit());
    allowed.set_cycle_bit(true);
    assert!(allowed.cycle_bit());
    assert_eq!(allowed.into_raw(), [raw[0], raw[1], raw[2], 0xa515_8005]);
    match allowed {
        Allowed::TransferEvent(event) => {
            assert_eq!(event.trb_pointer(), 0x0123_4567_89ab_cdef);
            assert_eq!(event.slot_id(), 0xa5);
        }
        other => panic!("not a Transfer Event: {:?}", other),
    }
    allowed.set_cycle_bit(false).set_cycle_bit(true).set_cycle_bit(false);
    assert_eq!(allowed.into_raw(), raw);
}

#[test]
fn allowed_from_each_type() {
    assert_eq!(Allowed::from(TransferEvent::new()), Allowed::TransferEvent(TransferEvent::new()));
    assert_eq!(
        Allowed::from(CommandCompletion::new()),
        Allowed::CommandCompletion(CommandCompletion::new())
    );
    assert_eq!(
        Allowed::from(PortStatusChange::new()),
        Allowed::PortStatusChange(PortStatusChange::new())
    );
    assert_eq!(
        Allowed::from(BandwidthRequest::new()),
        Allowed::BandwidthRequest(BandwidthRequest::new())
    );
    assert_eq!(Allowed::from(Doorbell::new()), Allowed::Doorbell(Doorbell::new()));
    assert_eq!(Allowed::from(HostController::new()), Allowed::HostController(HostController::new()));
    assert_eq!(
        Allowed::from(DeviceNotification::new()),
        Allowed::DeviceNotification(DeviceNotification::new())
    );
    assert_eq!(Allowed::from(MfindexWrap::new()), Allowed::MfindexWrap(MfindexWrap::new()));
    let allowed: Allowed = Doorbell::new().into();
    assert_eq!(allowed.into_raw(), [0, 0, 0, 0x9000]);
}

#[test]
fn allowed_gives_the_words() {
    let raw = [0x2a00_0000, 0, 0x0100_0000, 0x8801];
    let allowed = Allowed::try_from(raw).expect("valid");
    assert_eq!(allowed.into_raw(), raw);
    let slice: &[u32] = allowed.as_ref();
    assert_eq!(slice, &raw[..]);
    assert!(allowed.cycle_bit());
}

#[test]
fn conforms_to_checks_the_type_and_the_ranges() {
    let ranges: [ReservedRange; 2] = [(0, 4, 7), (2, 31, 31)];
    assert!(conforms_to(&[0xffff_ff0f, 0xffff_ffff, 0x7fff_ffff, 0xffff_07ff], Type::Normal, &ranges));
    assert!(!conforms_to(&[0xffff_ff1f, 0, 0, 0x0400], Type::Normal, &ranges));
    assert!(!conforms_to(&[0, 0, 0x8000_0000, 0x0400], Type::Normal, &ranges));
    assert!(!conforms_to(&[0, 0, 0, 0x0800], Type::Normal, &ranges));
    assert!(conforms_to(&[0, 0, 0, 0x0800], Type::SetupStage, &ranges));
    assert!(conforms_to(&[0xffff_ffff; 4], Type::Isoch, &[]) == false);
    assert!(conforms_to(&[0, 0, 0, 5 << 10], Type::Isoch, &[]));
}

#[test]
fn conforms_to_agrees_with_the_validators() {
    for index in 0..8 {
        let ty = Type::from_u8(32 + index as u8).expect("the number of an event type");
        for (other, raw) in fresh_words().into_iter().enumerate() {
            assert_eq!(conforms_to(&raw, ty, tables()[index]), other == index);
        }
        assert!(conforms_to(&fullest(index), ty, tables()[index]));
    }
}
