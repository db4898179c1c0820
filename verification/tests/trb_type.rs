use xhci::ring::trb::{Type, BYTES};

const ALL: [(Type, u8); 33] = [
    (Type::Normal, 1),
    (Type::SetupStage, 2),
    (Type::DataStage, 3),
    (Type::StatusStage, 4),
    (Type::Isoch, 5),
    (Type::Link, 6),
    (Type::EventData, 7),
    (Type::NoopTransfer, 8),
    (Type::EnableSlot, 9),
    (Type::DisableSlot, 10),
    (Type::AddressDevice, 11),
    (Type::ConfigureEndpoint, 12),
    (Type::EvaluateContext, 13),
    (Type::ResetEndpoint, 14),
    (Type::StopEndpoint, 15),
    (Type::SetTrDequeuePointer, 16),
    (Type::ResetDevice, 17),
    (Type::ForceEvent, 18),
    (Type::NegotiateBandwidth, 19),
    (Type::SetLatencyToleranceValue, 20),
    (Type::GetPortBandwidth, 21),
    (Type::ForceHeader, 22),
    (Type::NoopCommand, 23),
    (Type::GetExtendedProperty, 24),
    (Type::SetExtendedProperty, 25),
    (Type::TransferEvent, 32),
    (Type::CommandCompletion, 33),
    (Type::PortStatusChange, 34),
    (Type::BandwidthRequest, 35),
    (Type::Doorbell, 36),
    (Type::HostController, 37),
    (Type::DeviceNotification, 38),
    (Type::MfindexWrap, 39),
];

#[test]
fn a_trb_has_sixteen_bytes() {
    assert_eq!(BYTES, 16);
    assert_eq!(BYTES, std::mem::size_of::<[u32; 4]>());
}

#[test]
fn type_values_are_those_of_the_table() {
    for (ty, n) in ALL {
        assert_eq!(ty.value(), n);
    }
}

#[test]
fn type_from_u8_undoes_value() {
    for (ty, n) in ALL {
        assert_eq!(Type::from_u8(n), Some(ty));
    }
}

#[test]
fn type_from_u8_knows_exactly_the_table() {
    for n in 0..=255u8 {
        let known = ALL.iter().find(|(_, m)| *m == n).map(|(t, _)| *t);
        assert_eq!(Type::from_u8(n), known);
    }
}

#[test]
fn type_from_u8_rejects_the_numbers_between_the_groups() {
    assert_eq!(Type::from_u8(0), None);
    for n in 26..=31u8 {
        assert_eq!(Type::from_u8(n), None);
    }
    assert_eq!(Type::from_u8(40), None);
    assert_eq!(Type::from_u8(63), None);
}

#[test]
fn type_values_fit_the_six_bits_of_the_field() {
    for (ty, _) in ALL {
        assert!(ty.value() > 0);
        assert!(ty.value() < 64);
    }
}

#[test]
fn types_keep_the_order_of_their_numbers() {
    for pair in ALL.windows(2) {
        assert!(pair[0].0 < pair[1].0);
    }
}
