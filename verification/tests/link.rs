use xhci::ring::trb::{Link, Type};

#[test]
fn link_new_sets_the_type_and_nothing_else() {
    let link = Link::new();
    assert_eq!(link.into_raw(), [0, 0, 0, 0x1800]);
    assert_eq!(link.into_raw()[3], u32::from(Type::Link.value()) << 10);
    assert_eq!(link.ring_segment_pointer(), 0);
    assert_eq!(link.interrupter_target(), 0);
    assert!(!link.toggle_cycle());
    assert!(!link.chain_bit());
    assert!(!link.interrupt_on_completion());
    assert!(!link.cycle_bit());
    assert_eq!(Link::default(), link);
}

#[test]
fn link_pointer_is_stored_whole() {
    let mut link = Link::new();
    link.set_ring_segment_pointer(0x1234_5678_9abc_def0);
    assert_eq!(link.ring_segment_pointer(), 0x1234_5678_9abc_def0);
    assert_eq!(link.into_raw(), [0x9abc_def0, 0x1234_5678, 0, 0x1800]);
    link.set_ring_segment_pointer(0xffff_ffff_ffff_fff0);
    assert_eq!(link.ring_segment_pointer(), 0xffff_ffff_ffff_fff0);
    assert_eq!(link.into_raw(), [0xffff_fff0, 0xffff_ffff, 0, 0x1800]);
    link.set_ring_segment_pointer(16);
    assert_eq!(link.ring_segment_pointer(), 16);
    assert_eq!(link.into_raw(), [16, 0, 0, 0x1800]);
    link.set_ring_segment_pointer(0);
    assert_eq!(link.into_raw(), [0, 0, 0, 0x1800]);
}

#[test]
fn link_pointer_halves() {
    let mut link = Link::new();
    link.set_ring_segment_pointer(0x0000_0001_0000_0000);
    assert_eq!(link.into_raw(), [0, 1, 0, 0x1800]);
    link.set_ring_segment_pointer(0x0000_0000_8000_0000);
    assert_eq!(link.into_raw(), [0x8000_0000, 0, 0, 0x1800]);
}

#[test]
fn link_interrupter_target() {
    let mut link = Link::new();
    link.set_interrupter_target(0x3ff);
    assert_eq!(link.interrupter_target(), 0x3ff);
    assert_eq!(link.into_raw(), [0, 0, 0xffc0_0000, 0x1800]);
    link.set_interrupter_target(1);
    assert_eq!(link.interrupter_target(), 1);
    assert_eq!(link.into_raw(), [0, 0, 0x0040_0000, 0x1800]);
    link.set_interrupter_target(0x2a5);
    assert_eq!(link.interrupter_target(), 0x2a5);
    assert_eq!(link.into_raw(), [0, 0, 0x2a5 << 22, 0x1800]);
    link.set_interrupter_target(0);
    assert_eq!(link.into_raw(), [0, 0, 0, 0x1800]);
}

#[test]
fn link_flags() {
    let mut link = Link::new();
    link.set_cycle_bit(true);
    assert_eq!(link.into_raw(), [0, 0, 0, 0x1801]);
    link.set_toggle_cycle(true);
    assert_eq!(link.into_raw(), [0, 0, 0, 0x1803]);
    link.set_chain_bit(true);
    assert_eq!(link.into_raw(), [0, 0, 0, 0x1813]);
    link.set_interrupt_on_completion(true);
    assert_eq!(link.into_raw(), [0, 0, 0, 0x1833]);
    assert!(link.cycle_bit());
    assert!(link.toggle_cycle());
    assert!(link.chain_bit());
    assert!(link.interrupt_on_completion());
    link.set_toggle_cycle(false);
    assert_eq!(link.into_raw(), [0, 0, 0, 0x1831]);
    assert!(!link.toggle_cycle());
    link.set_cycle_bit(false);
    assert_eq!(link.into_raw(), [0, 0, 0, 0x1830]);
    link.set_interrupt_on_completion(false);
    assert_eq!(link.into_raw(), [0, 0, 0, 0x1810]);
    link.set_chain_bit(false);
    assert_eq!(link.into_raw(), [0, 0, 0, 0x1800]);
}

#[test]
fn link_setters_chain() {
    let mut link = Link::new();
    link.set_ring_segment_pointer(0x1000)
        .set_interrupter_target(5)
        .set_toggle_cycle(true)
        .set_chain_bit(true)
        .set_interrupt_on_completion(true)
        .set_cycle_bit(true);
    assert_eq!(link.into_raw(), [0x1000, 0, 5 << 22, 0x1833]);
    assert_eq!(link.ring_segment_pointer(), 0x1000);
    assert_eq!(link.interrupter_target(), 5);
}

#[test]
fn link_setters_keep_the_other_fields() {
    let mut link = Link::new();
    link.set_ring_segment_pointer(0xdead_beef_0000_0010).set_interrupter_target(0x155);
    link.set_chain_bit(true);
    let before = link;
    link.set_toggle_cycle(true);
    assert_eq!(link.ring_segment_pointer(), before.ring_segment_pointer());
    assert_eq!(link.interrupter_target(), before.interrupter_target());
    assert_eq!(link.chain_bit(), before.chain_bit());
    assert_eq!(link.interrupt_on_completion(), before.interrupt_on_completion());
    assert_eq!(link.cycle_bit(), before.cycle_bit());
    link.set_ring_segment_pointer(0x20);
    assert_eq!(link.interrupter_target(), 0x155);
    assert!(link.toggle_cycle());
    assert!(link.chain_bit());
    link.set_interrupter_target(2);
    assert_eq!(link.ring_segment_pointer(), 0x20);
    assert!(link.toggle_cycle());
    assert_eq!(link.into_raw(), [0x20, 0, 2 << 22, 0x1812]);
}

#[test]
fn link_gives_the_words() {
    let mut link = Link::new();
    link.set_ring_segment_pointer(0x40).set_cycle_bit(true);
    let words: [u32; 4] = link.into();
    assert_eq!(words, [0x40, 0, 0, 0x1801]);
    let slice: &[u32] = link.as_ref();
    assert_eq!(slice, &[0x40, 0, 0, 0x1801][..]);
}

#[test]
fn link_takes_an_aligned_pointer() {
    let mut link = Link::new();
    assert_eq!(link.try_set_ring_segment_pointer(0x1234_5678_9abc_def0), Ok(()));
    assert_eq!(link.ring_segment_pointer(), 0x1234_5678_9abc_def0);
    assert_eq!(link.into_raw(), [0x9abc_def0, 0x1234_5678, 0, 0x1800]);
    assert_eq!(link.try_set_ring_segment_pointer(0), Ok(()));
    assert_eq!(link.into_raw(), [0, 0, 0, 0x1800]);
    assert_eq!(link.try_set_ring_segment_pointer(16), Ok(()));
    assert_eq!(link.ring_segment_pointer(), 16);
}

#[test]
fn link_refuses_an_unaligned_pointer_and_stays_as_it_is() {
    let mut link = Link::new();
    link.set_ring_segment_pointer(0x1000).set_interrupter_target(3).set_chain_bit(true);
    let before = link;
    for low in 1..16u64 {
        for p in [low, 0x2000 + low, 0xffff_ffff_ffff_fff0 + low, 0x1_0000_0000 + low] {
            assert_eq!(link.try_set_ring_segment_pointer(p), Err(p));
            assert_eq!(link, before);
            assert_eq!(link.ring_segment_pointer(), 0x1000);
            assert_eq!(link.into_raw(), [0x1000, 0, 3 << 22, 0x1810]);
        }
    }
}

#[test]
fn link_pointer_is_always_aligned() {
    let mut link = Link::new();
    for p in [0u64, 16, 32, 0xfff0, 0xffff_fff0, 0x1_0000_0000, 0xffff_ffff_ffff_fff0] {
        assert_eq!(link.try_set_ring_segment_pointer(p), Ok(()));
        assert_eq!(link.ring_segment_pointer(), p);
        assert_eq!(link.ring_segment_pointer() % 16, 0);
        assert_eq!(link.try_set_ring_segment_pointer(p + 8), Err(p + 8));
        assert_eq!(link.ring_segment_pointer(), p);
    }
}
