//! TRB (Transfer Request Block).
//!
//! A TRB is four 32-bit words. Bit 0 of word 3 is its Cycle bit and bits 10..=15 of word 3 are its
//! TRB Type field; what the other bits mean depends on the type.

use crate::bits::{
    bit32, field32, field64, get_bit32, get_bits32, get_bits64, join64, lemma_field32_bound,
    lemma_field32_of_zero, lemma_field_max32, lemma_join64_of_halves, lemma_join64_value,
    lemma_with_bit32, lemma_with_bit32_field, lemma_with_bit32_only, lemma_with_field32_bit,
    lemma_with_field32_other, lemma_with_field32_same, set_bit32, set_bits32, with_bit32,
    with_field32,
};
use vstd::prelude::*;
use vstd::std_specs::convert::FromSpecImpl;

pub mod event;

verus! {

/// The bytes of a TRB.
pub const BYTES: usize = 16;

/// TRB Type.
#[derive(Copy, Clone, Debug, PartialEq, Eq, Structural, PartialOrd, Ord, Hash)]
pub enum Type {
    /// Normal TRB, 1
    Normal,
    /// Setup Stage TRB, 2
    SetupStage,
    /// Data Stage TRB, 3
    DataStage,
    /// Status Stage TRB, 4
    StatusStage,
    /// Isoch TRB, 5
    Isoch,
    /// Link TRB, 6
    Link,
    /// Event Data TRB, 7
    EventData,
    /// No Op TRB (Transfer), 8
    NoopTransfer,
    /// Enable Slot Command TRB, 9
    EnableSlot,
    /// Disable Slot Command TRB, 10
    DisableSlot,
    /// Address Device Command TRB, 11
    AddressDevice,
    /// Configure Endpoint Command TRB, 12
    ConfigureEndpoint,
    /// Evaluate Context Command TRB, 13
    EvaluateContext,
    /// Reset Endpoint Command TRB, 14
    ResetEndpoint,
    /// Stop Endpoint Command TRB, 15
    StopEndpoint,
    /// Set TR Dequeue Pointer Command TRB, 16
    SetTrDequeuePointer,
    /// Reset Device Command TRB, 17
    ResetDevice,
    /// Force Event Command TRB, 18
    ForceEvent,
    /// Negotiate Bandwidth Command TRB, 19
    NegotiateBandwidth,
    /// Set Latency Tolerance Value Command TRB, 20
    SetLatencyToleranceValue,
    /// Get Port Bandwidth Command TRB, 21
    GetPortBandwidth,
    /// Force Header Command TRB, 22
    ForceHeader,
    /// No Op Command TRB, 23
    NoopCommand,
    /// Get Extended Property Command TRB, 24
    GetExtendedProperty,
    /// Set Extended Property Command TRB, 25
    SetExtendedProperty,
    /// Transfer Event TRB, 32
    TransferEvent,
    /// Command Completion Event TRB, 33
    CommandCompletion,
    /// Port Status Change Event TRB, 34
    PortStatusChange,
    /// Bandwidth Request Event TRB, 35
    BandwidthRequest,
    /// Doorbell Event TRB, 36
    Doorbell,
    /// Host Controller Event TRB, 37
    HostController,
    /// Device Notification Event TRB, 38
    DeviceNotification,
    /// MFINDEX Wrap Event TRB, 39
    MfindexWrap,
}

impl Type {
    /// The number that stands for the type in the TRB Type field.
    pub open spec fn spec_value(self) -> u8 {
        match self {
            Type::Normal => 1,
            Type::SetupStage => 2,
            Type::DataStage => 3,
            Type::StatusStage => 4,
            Type::Isoch => 5,
            Type::Link => 6,
            Type::EventData => 7,
            Type::NoopTransfer => 8,
            Type::EnableSlot => 9,
            Type::DisableSlot => 10,
            Type::AddressDevice => 11,
            Type::ConfigureEndpoint => 12,
            Type::EvaluateContext => 13,
            Type::ResetEndpoint => 14,
            Type::StopEndpoint => 15,
            Type::SetTrDequeuePointer => 16,
            Type::ResetDevice => 17,
            Type::ForceEvent => 18,
            Type::NegotiateBandwidth => 19,
            Type::SetLatencyToleranceValue => 20,
            Type::GetPortBandwidth => 21,
            Type::ForceHeader => 22,
            Type::NoopCommand => 23,
            Type::GetExtendedProperty => 24,
            Type::SetExtendedProperty => 25,
            Type::TransferEvent => 32,
            Type::CommandCompletion => 33,
            Type::PortStatusChange => 34,
            Type::BandwidthRequest => 35,
            Type::Doorbell => 36,
            Type::HostController => 37,
            Type::DeviceNotification => 38,
            Type::MfindexWrap => 39,
        }
    }

    /// Returns the number that stands for the type in the TRB Type field.
    #[verifier::when_used_as_spec(spec_value)]
    pub fn value(self) -> (r: u8)
        ensures
            r == self.spec_value(),
            0 < r < 64,
    {
        match self {
            Type::Normal => 1,
            Type::SetupStage => 2,
            Type::DataStage => 3,
            Type::StatusStage => 4,
            Type::Isoch => 5,
            Type::Link => 6,
            Type::EventData => 7,
            Type::NoopTransfer => 8,
            Type::EnableSlot => 9,
            Type::DisableSlot => 10,
            Type::AddressDevice => 11,
            Type::ConfigureEndpoint => 12,
            Type::EvaluateContext => 13,
            Type::ResetEndpoint => 14,
            Type::StopEndpoint => 15,
            Type::SetTrDequeuePointer => 16,
            Type::ResetDevice => 17,
            Type::ForceEvent => 18,
            Type::NegotiateBandwidth => 19,
            Type::SetLatencyToleranceValue => 20,
            Type::GetPortBandwidth => 21,
            Type::ForceHeader => 22,
            Type::NoopCommand => 23,
            Type::GetExtendedProperty => 24,
            Type::SetExtendedProperty => 25,
            Type::TransferEvent => 32,
            Type::CommandCompletion => 33,
            Type::PortStatusChange => 34,
            Type::BandwidthRequest => 35,
            Type::Doorbell => 36,
            Type::HostController => 37,
            Type::DeviceNotification => 38,
            Type::MfindexWrap => 39,
        }
    }

    /// Returns the type that `n` stands for, if there is one.
    pub fn from_u8(n: u8) -> (r: Option<Type>)
        ensures
            match r {
                Some(t) => t.value() == n,
                None => forall|t: Type| #[trigger] t.value() != n,
            },
    {
        match n {
            1 => Some(Type::Normal),
            2 => Some(Type::SetupStage),
            3 => Some(Type::DataStage),
            4 => Some(Type::StatusStage),
            5 => Some(Type::Isoch),
            6 => Some(Type::Link),
            7 => Some(Type::EventData),
            8 => Some(Type::NoopTransfer),
            9 => Some(Type::EnableSlot),
            10 => Some(Type::DisableSlot),
            11 => Some(Type::AddressDevice),
            12 => Some(Type::ConfigureEndpoint),
            13 => Some(Type::EvaluateContext),
            14 => Some(Type::ResetEndpoint),
            15 => Some(Type::StopEndpoint),
            16 => Some(Type::SetTrDequeuePointer),
            17 => Some(Type::ResetDevice),
            18 => Some(Type::ForceEvent),
            19 => Some(Type::NegotiateBandwidth),
            20 => Some(Type::SetLatencyToleranceValue),
            21 => Some(Type::GetPortBandwidth),
            22 => Some(Type::ForceHeader),
            23 => Some(Type::NoopCommand),
            24 => Some(Type::GetExtendedProperty),
            25 => Some(Type::SetExtendedProperty),
            32 => Some(Type::TransferEvent),
            33 => Some(Type::CommandCompletion),
            34 => Some(Type::PortStatusChange),
            35 => Some(Type::BandwidthRequest),
            36 => Some(Type::Doorbell),
            37 => Some(Type::HostController),
            38 => Some(Type::DeviceNotification),
            39 => Some(Type::MfindexWrap),
            _ => None,
        }
    }

    /// No two types share a number.
    pub proof fn lemma_value_is_injective(a: Type, b: Type)
        requires
            a.value() == b.value(),
        ensures
            a == b,
    {
    }
}

/// A range of bits in one word of a TRB that the TRB's type reserves, so that the bits must be
/// zero: the index of the word, the lowest bit of the range, and its highest bit.
pub type ReservedRange = (usize, u32, u32);

/// The range lies in one of the four words of a TRB.
pub open spec fn in_bounds(range: ReservedRange) -> bool {
    range.0 < 4 && range.1 <= range.2 < 32
}

/// The range lies in a TRB and holds neither the Cycle bit nor a bit of the TRB Type field.
pub open spec fn well_formed(range: ReservedRange) -> bool {
    &&& in_bounds(range)
    &&& range.0 == 3 ==> 1 <= range.1 && (range.2 < 10 || 15 < range.1)
}

/// Every bit of the range is zero in `raw`.
pub open spec fn is_clear(range: ReservedRange, raw: Seq<u32>) -> bool {
    field32(raw[range.0 as int], range.1, range.2) == 0
}

/// Every range of `ranges` lies in a TRB.
pub open spec fn all_in_bounds(ranges: Seq<ReservedRange>) -> bool {
    forall|k: int| 0 <= k < ranges.len() ==> in_bounds(#[trigger] ranges[k])
}

/// Every range of `ranges` lies in a TRB, apart from the Cycle bit and the TRB Type field.
pub open spec fn all_well_formed(ranges: Seq<ReservedRange>) -> bool {
    forall|k: int| 0 <= k < ranges.len() ==> well_formed(#[trigger] ranges[k])
}

/// Every bit of every range of `ranges` is zero in `raw`.
pub open spec fn all_clear(raw: Seq<u32>, ranges: Seq<ReservedRange>) -> bool {
    forall|k: int| 0 <= k < ranges.len() ==> is_clear(#[trigger] ranges[k], raw)
}

/// The TRB Type field of `raw`: bits 10..=15 of word 3.
pub open spec fn type_field(raw: Seq<u32>) -> u32 {
    field32(raw[3], 10, 15)
}

/// The Cycle bit of `raw`: bit 0 of word 3.
pub open spec fn cycle_bit_of(raw: Seq<u32>) -> bool {
    bit32(raw[3], 0)
}

/// `raw` with its Cycle bit set to `b`.
pub open spec fn with_cycle_bit(raw: Seq<u32>, b: bool) -> Seq<u32> {
    raw.update(3, with_bit32(raw[3], 0, b))
}

/// The TRB of type `ty` in which every bit outside the TRB Type field is zero.
pub open spec fn fresh(ty: Type) -> Seq<u32> {
    seq![0u32, 0u32, 0u32, with_field32(0, 10, 15, ty.value() as u32)]
}

/// `raw` is a TRB of type `ty` whose reserved ranges are `ranges`: it has four words, its TRB Type
/// field holds the number of `ty`, and every reserved bit is zero.
pub open spec fn conforms(raw: Seq<u32>, ty: Type, ranges: Seq<ReservedRange>) -> bool {
    &&& raw.len() == 4
    &&& all_clear(raw, ranges)
    &&& type_field(raw) == ty.value()
}

/// Tells whether `raw` is a TRB of type `ty` whose reserved ranges are `ranges`.
pub fn conforms_to(raw: &[u32; 4], ty: Type, ranges: &[ReservedRange]) -> (ok: bool)
    requires
        all_in_bounds(ranges@),
    ensures
        ok == conforms(raw@, ty, ranges@),
{
    let mut k: usize = 0;
    while k < ranges.len()
        invariant
            k <= ranges@.len(),
            all_in_bounds(ranges@),
            forall|j: int| 0 <= j < k ==> is_clear(#[trigger] ranges@[j], raw@),
        decreases ranges@.len() - k,
    {
        let (word, lo, hi): ReservedRange = ranges[k];
        assert(in_bounds(ranges@[k as int]));
        if get_bits32(raw[word], lo, hi) != 0 {
            assert(!is_clear(ranges@[k as int], raw@));
            return false;
        }
        k += 1;
    }
    let ty_value: u8 = ty.value();
    get_bits32(raw[3], 10, 15) == ty_value as u32
}

/// Returns the TRB of type `ty` in which every bit outside the TRB Type field is zero.
pub(crate) fn fresh_words(ty: Type) -> (raw: [u32; 4])
    ensures
        raw@ == fresh(ty),
{
    let ty_value: u8 = ty.value();
    proof {
        lemma_field_max32(10, 15);
    }
    let word: u32 = set_bits32(0, 10, 15, ty_value as u32);
    let raw: [u32; 4] = [0, 0, 0, word];
    assert(raw@ =~= fresh(ty));
    raw
}

/// What a fresh TRB holds: the number of its type in the TRB Type field, and zero in every other
/// bit.
pub proof fn lemma_fresh(ty: Type)
    ensures
        fresh(ty).len() == 4,
        fresh(ty)[0] == 0 && fresh(ty)[1] == 0 && fresh(ty)[2] == 0,
        fresh(ty)[3] == ty.value() * 1024,
        type_field(fresh(ty)) == ty.value(),
        forall|i: u32| i < 10 || 15 < i < 32 ==> !#[trigger] bit32(fresh(ty)[3], i),
        forall|lo: u32, hi: u32|
            lo <= hi < 32 && (hi < 10 || 15 < lo) ==> #[trigger] field32(fresh(ty)[3], lo, hi)
                == 0,
{
    let v: u32 = ty.value() as u32;
    let word: u32 = with_field32(0, 10, 15, v);
    lemma_field_max32(10, 15);
    lemma_with_field32_same(0, 10, 15, v);
    assert(word == v * 1024) by (bit_vector)
        requires
            word == with_field32(0, 10, 15, v),
            v < 64,
    ;
    assert forall|i: u32| i < 10 || 15 < i < 32 implies !#[trigger] bit32(word, i) by {
        lemma_field32_of_zero(i, i);
        lemma_with_field32_bit(0, 10, 15, v, i);
    }
    assert forall|lo: u32, hi: u32|
        lo <= hi < 32 && (hi < 10 || 15 < lo) implies #[trigger] field32(word, lo, hi) == 0 by {
        lemma_field32_of_zero(lo, hi);
        lemma_with_field32_other(0, 10, 15, v, lo, hi);
    }
}

/// A fresh TRB conforms to its type, whatever ranges the type reserves.
pub proof fn lemma_fresh_conforms(ty: Type, ranges: Seq<ReservedRange>)
    requires
        all_well_formed(ranges),
    ensures
        conforms(fresh(ty), ty, ranges),
{
    lemma_fresh(ty);
    assert forall|k: int| 0 <= k < ranges.len() implies is_clear(
        #[trigger] ranges[k],
        fresh(ty),
    ) by {
        let range = ranges[k];
        assert(well_formed(range));
        lemma_field32_of_zero(range.1, range.2);
    }
}

/// Writing the Cycle bit changes the Cycle bit and nothing else: every other bit and every range of
/// bits that does not hold the Cycle bit reads as before.
pub proof fn lemma_cycle_bit_is_independent(raw: Seq<u32>, b: bool)
    requires
        raw.len() == 4,
    ensures
        with_cycle_bit(raw, b).len() == 4,
        cycle_bit_of(with_cycle_bit(raw, b)) == b,
        with_cycle_bit(raw, b)[0] == raw[0],
        with_cycle_bit(raw, b)[1] == raw[1],
        with_cycle_bit(raw, b)[2] == raw[2],
        type_field(with_cycle_bit(raw, b)) == type_field(raw),
        forall|i: u32|
            1 <= i < 32 ==> #[trigger] bit32(with_cycle_bit(raw, b)[3], i) == bit32(raw[3], i),
        forall|lo: u32, hi: u32|
            1 <= lo <= hi < 32 ==> #[trigger] field32(with_cycle_bit(raw, b)[3], lo, hi) == field32(
                raw[3],
                lo,
                hi,
            ),
{
    let word: u32 = with_bit32(raw[3], 0, b);
    lemma_with_bit32(raw[3], 0, b, 0);
    lemma_with_bit32_field(raw[3], 0, b, 10, 15);
    assert forall|i: u32| 1 <= i < 32 implies #[trigger] bit32(word, i) == bit32(raw[3], i) by {
        lemma_with_bit32(raw[3], 0, b, i);
    }
    assert forall|lo: u32, hi: u32| 1 <= lo <= hi < 32 implies #[trigger] field32(word, lo, hi)
        == field32(raw[3], lo, hi) by {
        lemma_with_bit32_field(raw[3], 0, b, lo, hi);
    }
}

/// Writing the Cycle bit does not change whether a TRB conforms to a type.
pub proof fn lemma_cycle_bit_keeps_conformance(
    raw: Seq<u32>,
    b: bool,
    ty: Type,
    ranges: Seq<ReservedRange>,
)
    requires
        raw.len() == 4,
        all_well_formed(ranges),
    ensures
        conforms(with_cycle_bit(raw, b), ty, ranges) == conforms(raw, ty, ranges),
{
    let after = with_cycle_bit(raw, b);
    lemma_cycle_bit_is_independent(raw, b);
    assert forall|k: int| 0 <= k < ranges.len() implies is_clear(#[trigger] ranges[k], after)
        == is_clear(ranges[k], raw) by {
        assert(well_formed(ranges[k]));
    }
}

/// Link TRB
///
/// A value of this type always has the TRB Type field of a Link TRB and a Ring Segment Pointer that
/// is 16-byte aligned.
#[derive(Copy, Clone, Debug, PartialEq, Eq, PartialOrd, Ord, Hash)]
pub struct Link([u32; 4]);

impl View for Link {
    type V = Seq<u32>;

    /// The four words of the TRB.
    open spec fn view(&self) -> Seq<u32> {
        self.into_raw()@
    }
}

impl Link {
    /// The wrapped array.
    pub closed spec fn spec_into_raw(self) -> [u32; 4] {
        self.0
    }

    /// What holds of every Link TRB.
    #[verifier::type_invariant]
    pub open spec fn wf(self) -> bool {
        &&& type_field(self@) == Type::Link.value()
        &&& self.ring_segment_pointer() % 16 == 0
    }

    /// The value of the Cycle Bit.
    pub open spec fn spec_cycle_bit(&self) -> bool {
        cycle_bit_of(self@)
    }

    /// The value of the Ring Segment Pointer field: word 0 is its low half, word 1 its high half.
    pub open spec fn spec_ring_segment_pointer(&self) -> u64 {
        join64(self@[0], self@[1])
    }

    /// The value of the Interrupter Target field: bits 22..=31 of word 2.
    pub open spec fn spec_interrupter_target(&self) -> u32 {
        field32(self@[2], 22, 31)
    }

    /// The value of the Toggle Cycle field: bit 1 of word 3.
    pub open spec fn spec_toggle_cycle(&self) -> bool {
        bit32(self@[3], 1)
    }

    /// The value of the Chain bit field: bit 4 of word 3.
    pub open spec fn spec_chain_bit(&self) -> bool {
        bit32(self@[3], 4)
    }

    /// The value of the Interrupt On Completion field: bit 5 of word 3.
    pub open spec fn spec_interrupt_on_completion(&self) -> bool {
        bit32(self@[3], 5)
    }

    /// Creates a new Link TRB.
    ///
    /// This method sets the value of the TRB Type field properly. All the other fields are set to
    /// 0.
    #[must_use]
    pub fn new() -> (r: Self)
        ensures
            r@ == fresh(Type::Link),
            r@[3] == 0x1800,
            r.ring_segment_pointer() == 0,
            r.interrupter_target() == 0,
            !r.toggle_cycle(),
            !r.chain_bit(),
            !r.interrupt_on_completion(),
            !r.cycle_bit(),
    {
        let raw: [u32; 4] = fresh_words(Type::Link);
        proof {
            lemma_fresh(Type::Link);
            lemma_join64_value(0, 0);
            lemma_field32_of_zero(22, 31);
        }
        Link(raw)
    }

    /// Returns the wrapped array.
    #[must_use]
    #[verifier::when_used_as_spec(spec_into_raw)]
    pub fn into_raw(self) -> (r: [u32; 4])
        ensures
            r == self.spec_into_raw(),
            type_field(r@) == Type::Link.value(),
            join64(r[0], r[1]) % 16 == 0,
    {
        proof {
            use_type_invariant(&self);
        }
        self.0
    }

    /// Returns the value of the Cycle Bit.
    #[must_use]
    #[verifier::when_used_as_spec(spec_cycle_bit)]
    pub fn cycle_bit(&self) -> (r: bool)
        ensures
            r == self.spec_cycle_bit(),
    {
        get_bit32(self.0[3], 0)
    }

    /// Sets bit `i` of word 3, which is one of the four flags of a Link TRB.
    fn set_flag(&mut self, i: u32, b: bool)
        requires
            i == 0 || i == 1 || i == 4 || i == 5,
        ensures
            final(self)@ == old(self)@.update(3, with_bit32(old(self)@[3], i, b)),
            bit32(final(self)@[3], i) == b,
            forall|j: u32|
                j < 32 && j != i ==> bit32(final(self)@[3], j) == bit32(old(self)@[3], j),
    {
        proof {
            use_type_invariant(&*self);
        }
        let word: u32 = set_bit32(self.0[3], i, b);
        proof {
            lemma_with_bit32_field(self.0[3], i, b, 10, 15);
            lemma_with_bit32_only(self.0[3], i, b);
        }
        self.0[3] = word;
    }

    /// Sets the value of the Cycle Bit.
    pub fn set_cycle_bit(&mut self, b: bool) -> (ret: &mut Self)
        ensures
            *final(self) == *final(ret),
            ret@ == with_cycle_bit(old(self)@, b),
            ret.cycle_bit() == b,
            ret.ring_segment_pointer() == old(self).ring_segment_pointer(),
            ret.interrupter_target() == old(self).interrupter_target(),
            ret.toggle_cycle() == old(self).toggle_cycle(),
            ret.chain_bit() == old(self).chain_bit(),
            ret.interrupt_on_completion() == old(self).interrupt_on_completion(),
    {
        self.set_flag(0, b);
        self
    }

    /// Sets the value of the Ring Segment Pointer field.
    ///
    /// The pointer must be 16-byte aligned. It is stored whole: no bit of it is dropped.
    pub fn set_ring_segment_pointer(&mut self, p: u64) -> (ret: &mut Self)
        requires
            p % 16 == 0,
        ensures
            *final(self) == *final(ret),
            ret@ == old(self)@.update(0, field64(p, 0, 31) as u32).update(
                1,
                field64(p, 32, 63) as u32,
            ),
            ret.ring_segment_pointer() == p,
            ret.interrupter_target() == old(self).interrupter_target(),
            ret.toggle_cycle() == old(self).toggle_cycle(),
            ret.chain_bit() == old(self).chain_bit(),
            ret.interrupt_on_completion() == old(self).interrupt_on_completion(),
            ret.cycle_bit() == old(self).cycle_bit(),
    {
        proof {
            use_type_invariant(&*self);
            lemma_join64_of_halves(p);
        }
        let l: u64 = get_bits64(p, 0, 31);
        let u: u64 = get_bits64(p, 32, 63);
        let raw: [u32; 4] = [l as u32, u as u32, self.0[2], self.0[3]];
        assert(raw@ =~= self.0@.update(0, l as u32).update(1, u as u32));
        self.0 = raw;
        self
    }

    /// Sets the value of the Ring Segment Pointer field if `p` is 16-byte aligned, and hands `p`
    /// back if it is not.
    ///
    /// An aligned pointer is stored whole. For any other pointer the TRB stays as it is: the
    /// pointer is neither cut nor rounded.
    pub fn try_set_ring_segment_pointer(&mut self, p: u64) -> (r: Result<(), u64>)
        ensures
            p % 16 == 0 ==> r is Ok && final(self).ring_segment_pointer() == p && final(self)@
                == old(self)@.update(0, field64(p, 0, 31) as u32).update(
                1,
                field64(p, 32, 63) as u32,
            ),
            p % 16 != 0 ==> r == Err::<(), u64>(p) && *final(self) == *old(self),
    {
        if p % 16 == 0 {
            self.set_ring_segment_pointer(p);
            Ok(())
        } else {
            Err(p)
        }
    }

    /// No Link TRB holds a pointer that is not 16-byte aligned: its Ring Segment Pointer is no
    /// such pointer, and the two words that would hold such a pointer are the pointer words of
    /// no Link TRB. The setters store exactly the pointer that they are given, so a Link TRB
    /// holds no pointer that was cut or rounded either.
    pub proof fn lemma_unaligned_pointer_is_never_stored(link: Link, p: u64)
        requires
            link.wf(),
            p % 16 != 0,
        ensures
            link.ring_segment_pointer() != p,
            !(link@[0] == field64(p, 0, 31) as u32 && link@[1] == field64(p, 32, 63) as u32),
    {
        lemma_join64_of_halves(p);
    }

    /// Returns the value of the Ring Segment Pointer field.
    #[must_use]
    #[verifier::when_used_as_spec(spec_ring_segment_pointer)]
    pub fn ring_segment_pointer(&self) -> (r: u64)
        ensures
            r == self.spec_ring_segment_pointer(),
            r % 16 == 0,
    {
        proof {
            use_type_invariant(self);
        }
        let l: u64 = self.0[0] as u64;
        let u: u64 = self.0[1] as u64;

        (u << 32) | l
    }

    /// Sets the value of the Interrupter Target field.
    ///
    /// The field is 10 bits wide, and `t` must fit in it.
    pub fn set_interrupter_target(&mut self, t: u32) -> (ret: &mut Self)
        requires
            t <= 0x3ff,
        ensures
            *final(self) == *final(ret),
            ret@ == old(self)@.update(2, with_field32(old(self)@[2], 22, 31, t)),
            ret.interrupter_target() == t,
            ret.ring_segment_pointer() == old(self).ring_segment_pointer(),
            ret.toggle_cycle() == old(self).toggle_cycle(),
            ret.chain_bit() == old(self).chain_bit(),
            ret.interrupt_on_completion() == old(self).interrupt_on_completion(),
            ret.cycle_bit() == old(self).cycle_bit(),
    {
        proof {
            use_type_invariant(&*self);
            lemma_field_max32(22, 31);
            lemma_with_field32_same(self.0[2], 22, 31, t);
        }
        let word: u32 = set_bits32(self.0[2], 22, 31, t);
        self.0[2] = word;
        self
    }

    /// Returns the value of the Interrupter Target field.
    #[must_use]
    #[verifier::when_used_as_spec(spec_interrupter_target)]
    pub fn interrupter_target(&self) -> (r: u32)
        ensures
            r == self.spec_interrupter_target(),
            r <= 0x3ff,
    {
        proof {
            lemma_field_max32(22, 31);
            lemma_field32_bound(self.0[2], 22, 31);
        }
        get_bits32(self.0[2], 22, 31)
    }

    /// Sets the value of the Toggle Cycle field.
    pub fn set_toggle_cycle(&mut self, c: bool) -> (ret: &mut Self)
        ensures
            *final(self) == *final(ret),
            ret@ == old(self)@.update(3, with_bit32(old(self)@[3], 1, c)),
            ret.toggle_cycle() == c,
            ret.ring_segment_pointer() == old(self).ring_segment_pointer(),
            ret.interrupter_target() == old(self).interrupter_target(),
            ret.chain_bit() == old(self).chain_bit(),
            ret.interrupt_on_completion() == old(self).interrupt_on_completion(),
            ret.cycle_bit() == old(self).cycle_bit(),
    {
        self.set_flag(1, c);
        self
    }

    /// Returns the value of the Toggle Cycle field.
    #[must_use]
    #[verifier::when_used_as_spec(spec_toggle_cycle)]
    pub fn toggle_cycle(&self) -> (r: bool)
        ensures
            r == self.spec_toggle_cycle(),
    {
        get_bit32(self.0[3], 1)
    }

    /// Sets the value of the Chain bit field.
    pub fn set_chain_bit(&mut self, b: bool) -> (ret: &mut Self)
        ensures
            *final(self) == *final(ret),
            ret@ == old(self)@.update(3, with_bit32(old(self)@[3], 4, b)),
            ret.chain_bit() == b,
            ret.ring_segment_pointer() == old(self).ring_segment_pointer(),
            ret.interrupter_target() == old(self).interrupter_target(),
            ret.toggle_cycle() == old(self).toggle_cycle(),
            ret.interrupt_on_completion() == old(self).interrupt_on_completion(),
            ret.cycle_bit() == old(self).cycle_bit(),
    {
        self.set_flag(4, b);
        self
    }

    /// Returns the value of the Chain bit field.
    #[must_use]
    #[verifier::when_used_as_spec(spec_chain_bit)]
    pub fn chain_bit(&self) -> (r: bool)
        ensures
            r == self.spec_chain_bit(),
    {
        get_bit32(self.0[3], 4)
    }

    /// Sets the value of the Interrupt On Completion field.
    pub fn set_interrupt_on_completion(&mut self, ioc: bool) -> (ret: &mut Self)
        ensures
            *final(self) == *final(ret),
            ret@ == old(self)@.update(3, with_bit32(old(self)@[3], 5, ioc)),
            ret.interrupt_on_completion() == ioc,
            ret.ring_segment_pointer() == old(self).ring_segment_pointer(),
            ret.interrupter_target() == old(self).interrupter_target(),
            ret.toggle_cycle() == old(self).toggle_cycle(),
            ret.chain_bit() == old(self).chain_bit(),
            ret.cycle_bit() == old(self).cycle_bit(),
    {
        self.set_flag(5, ioc);
        self
    }

    /// Returns the value of the Interrupt On Completion field.
    #[must_use]
    #[verifier::when_used_as_spec(spec_interrupt_on_completion)]
    pub fn interrupt_on_completion(&self) -> (r: bool)
        ensures
            r == self.spec_interrupt_on_completion(),
    {
        get_bit32(self.0[3], 5)
    }
}

impl Default for Link {
    fn default() -> (r: Self)
        ensures
            r@ == fresh(Type::Link),
    {
        Self::new()
    }
}

impl AsRef<[u32]> for Link {
    fn as_ref(&self) -> (r: &[u32])
        ensures
            r@ == self@,
    {
        &self.0
    }
}

impl From<Link> for [u32; 4] {
    fn from(t: Link) -> (r: [u32; 4])
        ensures
            r == t.into_raw(),
    {
        t.0
    }
}

impl FromSpecImpl<Link> for [u32; 4] {
    open spec fn obeys_from_spec() -> bool {
        true
    }

    open spec fn from_spec(t: Link) -> [u32; 4] {
        t.into_raw()
    }
}


} // verus!
