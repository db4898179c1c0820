//! Event TRBs.
//!
//! The xHC reports what happened by pushing Event TRBs to the Event Ring. There are eight types of
//! them. Each type reserves some ranges of bits; a TRB is a valid Event TRB of a type if its TRB
//! Type field holds the number of that type and the bits that the type reserves are zero.

use crate::bits::{
    bit32, field32, get_bit32, get_bits32, join64, lemma_field32_bound, lemma_field32_nonzero,
    lemma_field32_of_zero, lemma_field_max32, lemma_join64_value, lemma_with_bit32,
    lemma_with_bit32_field, set_bit32, with_bit32,
};
use crate::ring::trb::{
    all_in_bounds, all_well_formed, conforms, conforms_to, cycle_bit_of, fresh, fresh_words,
    is_clear, lemma_cycle_bit_is_independent, lemma_cycle_bit_keeps_conformance, lemma_fresh,
    lemma_fresh_conforms, type_field, well_formed, with_cycle_bit, ReservedRange, Type,
};
use vstd::prelude::*;
use vstd::std_specs::convert::{FromSpecImpl, TryFromSpecImpl};

verus! {

/// TRBs which are allowed to be pushed to the Event Ring.
#[derive(Copy, Clone, Debug, PartialEq, Eq, PartialOrd, Ord, Hash)]
pub enum Allowed {
    /// Transfer Event TRB.
    TransferEvent(TransferEvent),
    /// Command Completion Event TRB.
    CommandCompletion(CommandCompletion),
    /// Port Status Change Event TRB.
    PortStatusChange(PortStatusChange),
    /// Bandwidth Request Event TRB.
    BandwidthRequest(BandwidthRequest),
    /// Doorbell Event TRB.
    Doorbell(Doorbell),
    /// Host Controller Event TRB.
    HostController(HostController),
    /// Device Notification Event TRB.
    DeviceNotification(DeviceNotification),
    /// MFINDEX Wrap Event TRB.
    MfindexWrap(MfindexWrap),
}

/// Whether `ty` is one of the eight types of Event TRBs.
pub open spec fn is_event(ty: Type) -> bool {
    ||| ty is TransferEvent
    ||| ty is CommandCompletion
    ||| ty is PortStatusChange
    ||| ty is BandwidthRequest
    ||| ty is Doorbell
    ||| ty is HostController
    ||| ty is DeviceNotification
    ||| ty is MfindexWrap
}

/// The ranges that an Event TRB of type `ty` reserves.
pub open spec fn reserved_ranges(ty: Type) -> Seq<ReservedRange>
    recommends
        is_event(ty),
{
    match ty {
        Type::TransferEvent => TRANSFER_EVENT_RESERVED@,
        Type::CommandCompletion => COMMAND_COMPLETION_RESERVED@,
        Type::PortStatusChange => PORT_STATUS_CHANGE_RESERVED@,
        Type::BandwidthRequest => BANDWIDTH_REQUEST_RESERVED@,
        Type::Doorbell => DOORBELL_RESERVED@,
        Type::HostController => HOST_CONTROLLER_RESERVED@,
        Type::DeviceNotification => DEVICE_NOTIFICATION_RESERVED@,
        Type::MfindexWrap => MFINDEX_WRAP_RESERVED@,
        _ => Seq::empty(),
    }
}

/// `raw` is a valid Event TRB of type `ty`: `ty` is a type of Event TRBs, the TRB Type field of
/// `raw` holds the number of `ty`, and the bits that `ty` reserves are zero in `raw`.
pub open spec fn is_event_of(raw: Seq<u32>, ty: Type) -> bool {
    is_event(ty) && conforms(raw, ty, reserved_ranges(ty))
}

/// The value of the Completion Code field of `raw`: bits 24..=31 of word 2.
pub open spec fn completion_code_field(raw: Seq<u32>) -> u8 {
    field32(raw[2], 24, 31) as u8
}

/// The Completion Code of `raw`: the code that its Completion Code field stands for, or the field's
/// value where it stands for none.
pub open spec fn completion_code_of(raw: Seq<u32>) -> Result<CompletionCode, u8> {
    match CompletionCode::from_u8(completion_code_field(raw)) {
        Some(code) => Ok(code),
        None => Err(completion_code_field(raw)),
    }
}

/// Decodes the Completion Code field of `raw`.
fn read_completion_code(raw: &[u32; 4]) -> (r: Result<CompletionCode, u8>)
    ensures
        r == completion_code_of(raw@),
{
    proof {
        lemma_field_max32(24, 31);
        lemma_field32_bound(raw[2], 24, 31);
    }
    let bits: u32 = get_bits32(raw[2], 24, 31);
    let c: u8 = bits as u8;
    match CompletionCode::from_u8(c) {
        Some(code) => Ok(code),
        None => Err(c),
    }
}

/// The ranges that a type of Event TRBs reserves lie in the TRB, apart from the Cycle bit and the
/// TRB Type field.
pub proof fn lemma_reserved_ranges(ty: Type)
    ensures
        all_well_formed(reserved_ranges(ty)),
        all_in_bounds(reserved_ranges(ty)),
{
}

impl View for Allowed {
    type V = Seq<u32>;

    /// The four words of the TRB.
    open spec fn view(&self) -> Seq<u32> {
        self.into_raw()@
    }
}

impl Allowed {
    /// The type of the TRB.
    pub open spec fn ty(self) -> Type {
        match self {
            Allowed::TransferEvent(_) => Type::TransferEvent,
            Allowed::CommandCompletion(_) => Type::CommandCompletion,
            Allowed::PortStatusChange(_) => Type::PortStatusChange,
            Allowed::BandwidthRequest(_) => Type::BandwidthRequest,
            Allowed::Doorbell(_) => Type::Doorbell,
            Allowed::HostController(_) => Type::HostController,
            Allowed::DeviceNotification(_) => Type::DeviceNotification,
            Allowed::MfindexWrap(_) => Type::MfindexWrap,
        }
    }

    /// The wrapped array.
    pub open spec fn spec_into_raw(self) -> [u32; 4] {
        match self {
            Allowed::TransferEvent(v) => v.into_raw(),
            Allowed::CommandCompletion(v) => v.into_raw(),
            Allowed::PortStatusChange(v) => v.into_raw(),
            Allowed::BandwidthRequest(v) => v.into_raw(),
            Allowed::Doorbell(v) => v.into_raw(),
            Allowed::HostController(v) => v.into_raw(),
            Allowed::DeviceNotification(v) => v.into_raw(),
            Allowed::MfindexWrap(v) => v.into_raw(),
        }
    }

    /// The value of the Cycle Bit.
    pub open spec fn spec_cycle_bit(&self) -> bool {
        cycle_bit_of(self@)
    }

    /// What classification makes of `raw`: the validators of the eight types are tried in turn, the
    /// first that accepts `raw` wraps it, and `raw` itself is the result if none does.
    pub open spec fn classify(raw: [u32; 4]) -> Result<Self, [u32; 4]> {
        if is_event_of(raw@, Type::TransferEvent) {
            Ok(Allowed::TransferEvent(TransferEvent::spec_from_raw(raw)))
        } else if is_event_of(raw@, Type::CommandCompletion) {
            Ok(Allowed::CommandCompletion(CommandCompletion::spec_from_raw(raw)))
        } else if is_event_of(raw@, Type::PortStatusChange) {
            Ok(Allowed::PortStatusChange(PortStatusChange::spec_from_raw(raw)))
        } else if is_event_of(raw@, Type::BandwidthRequest) {
            Ok(Allowed::BandwidthRequest(BandwidthRequest::spec_from_raw(raw)))
        } else if is_event_of(raw@, Type::Doorbell) {
            Ok(Allowed::Doorbell(Doorbell::spec_from_raw(raw)))
        } else if is_event_of(raw@, Type::HostController) {
            Ok(Allowed::HostController(HostController::spec_from_raw(raw)))
        } else if is_event_of(raw@, Type::DeviceNotification) {
            Ok(Allowed::DeviceNotification(DeviceNotification::spec_from_raw(raw)))
        } else if is_event_of(raw@, Type::MfindexWrap) {
            Ok(Allowed::MfindexWrap(MfindexWrap::spec_from_raw(raw)))
        } else {
            Err(raw)
        }
    }

    /// What holds of every TRB of this type: it is a valid Event TRB of the type that its variant
    /// names.
    pub open spec fn wf(self) -> bool {
        is_event_of(self@, self.ty())
    }

    /// Sets the value of the Cycle Bit.
    ///
    /// The TRB stays of its type, and no other field changes.
    pub fn set_cycle_bit(&mut self, b: bool) -> (ret: &mut Self)
        ensures
            *final(self) == *final(ret),
            ret.wf(),
            ret@ == with_cycle_bit(old(self)@, b),
            ret.ty() == old(self).ty(),
            ret.cycle_bit() == b,
    {
        match self {
            Allowed::TransferEvent(v) => {
                v.set_cycle_bit(b);
            },
            Allowed::CommandCompletion(v) => {
                v.set_cycle_bit(b);
            },
            Allowed::PortStatusChange(v) => {
                v.set_cycle_bit(b);
            },
            Allowed::BandwidthRequest(v) => {
                v.set_cycle_bit(b);
            },
            Allowed::Doorbell(v) => {
                v.set_cycle_bit(b);
            },
            Allowed::HostController(v) => {
                v.set_cycle_bit(b);
            },
            Allowed::DeviceNotification(v) => {
                v.set_cycle_bit(b);
            },
            Allowed::MfindexWrap(v) => {
                v.set_cycle_bit(b);
            },
        }
        self
    }

    /// Returns the value of the Cycle Bit.
    #[must_use]
    #[verifier::when_used_as_spec(spec_cycle_bit)]
    pub fn cycle_bit(&self) -> (r: bool)
        ensures
            r == self.spec_cycle_bit(),
    {
        match self {
            Allowed::TransferEvent(v) => v.cycle_bit(),
            Allowed::CommandCompletion(v) => v.cycle_bit(),
            Allowed::PortStatusChange(v) => v.cycle_bit(),
            Allowed::BandwidthRequest(v) => v.cycle_bit(),
            Allowed::Doorbell(v) => v.cycle_bit(),
            Allowed::HostController(v) => v.cycle_bit(),
            Allowed::DeviceNotification(v) => v.cycle_bit(),
            Allowed::MfindexWrap(v) => v.cycle_bit(),
        }
    }

    /// Returns the wrapped array.
    #[must_use]
    #[verifier::when_used_as_spec(spec_into_raw)]
    pub fn into_raw(self) -> (r: [u32; 4])
        ensures
            r == self.spec_into_raw(),
            self.wf(),
    {
        match self {
            Allowed::TransferEvent(v) => v.into_raw(),
            Allowed::CommandCompletion(v) => v.into_raw(),
            Allowed::PortStatusChange(v) => v.into_raw(),
            Allowed::BandwidthRequest(v) => v.into_raw(),
            Allowed::Doorbell(v) => v.into_raw(),
            Allowed::HostController(v) => v.into_raw(),
            Allowed::DeviceNotification(v) => v.into_raw(),
            Allowed::MfindexWrap(v) => v.into_raw(),
        }
    }
}

impl AsRef<[u32]> for Allowed {
    /// Returns the four words of the TRB.
    fn as_ref(&self) -> (r: &[u32])
        ensures
            r@ == self@,
    {
        match self {
            Allowed::TransferEvent(v) => v.as_ref(),
            Allowed::CommandCompletion(v) => v.as_ref(),
            Allowed::PortStatusChange(v) => v.as_ref(),
            Allowed::BandwidthRequest(v) => v.as_ref(),
            Allowed::Doorbell(v) => v.as_ref(),
            Allowed::HostController(v) => v.as_ref(),
            Allowed::DeviceNotification(v) => v.as_ref(),
            Allowed::MfindexWrap(v) => v.as_ref(),
        }
    }
}

impl TryFrom<[u32; 4]> for Allowed {
    type Error = [u32; 4];

    /// Classifies `raw`: wraps it as the Event TRB of the one type that it is valid for, and hands
    /// it back if it is valid for none.
    fn try_from(raw: [u32; 4]) -> (r: Result<Self, [u32; 4]>)
        ensures
            r == Self::classify(raw),
            match r {
                Ok(a) => a.into_raw() == raw && a.wf(),
                Err(e) => e == raw && forall|ty: Type| !is_event_of(raw@, ty),
            },
    {
        if let Ok(t) = TransferEvent::try_from(raw) {
            return Ok(Allowed::TransferEvent(t));
        }
        if let Ok(t) = CommandCompletion::try_from(raw) {
            return Ok(Allowed::CommandCompletion(t));
        }
        if let Ok(t) = PortStatusChange::try_from(raw) {
            return Ok(Allowed::PortStatusChange(t));
        }
        if let Ok(t) = BandwidthRequest::try_from(raw) {
            return Ok(Allowed::BandwidthRequest(t));
        }
        if let Ok(t) = Doorbell::try_from(raw) {
            return Ok(Allowed::Doorbell(t));
        }
        if let Ok(t) = HostController::try_from(raw) {
            return Ok(Allowed::HostController(t));
        }
        if let Ok(t) = DeviceNotification::try_from(raw) {
            return Ok(Allowed::DeviceNotification(t));
        }
        if let Ok(t) = MfindexWrap::try_from(raw) {
            return Ok(Allowed::MfindexWrap(t));
        }

        Err(raw)
    }
}

impl TryFromSpecImpl<[u32; 4]> for Allowed {
    open spec fn obeys_try_from_spec() -> bool {
        true
    }

    open spec fn try_from_spec(raw: [u32; 4]) -> Result<Self, [u32; 4]> {
        Self::classify(raw)
    }
}

/// The ranges that a Transfer Event TRB reserves.
pub const TRANSFER_EVENT_RESERVED: [ReservedRange; 3] = [
    (3, 1, 1),
    (3, 3, 9),
    (3, 21, 23),
];

/// Transfer Event TRB
///
/// A value of this type is always a valid Transfer Event TRB: its TRB Type field says so, and the
/// bits that the type reserves are zero.
#[derive(Copy, Clone, Debug, PartialEq, Eq, PartialOrd, Ord, Hash)]
pub struct TransferEvent([u32; 4]);

impl View for TransferEvent {
    type V = Seq<u32>;

    /// The four words of the TRB.
    open spec fn view(&self) -> Seq<u32> {
        self.into_raw()@
    }
}

impl TransferEvent {
    /// The wrapped array.
    pub closed spec fn spec_into_raw(self) -> [u32; 4] {
        self.0
    }

    /// The TRB that wraps `raw`. It is a Transfer Event TRB only if `raw` is a valid one.
    pub closed spec fn spec_from_raw(raw: [u32; 4]) -> Self {
        TransferEvent(raw)
    }

    /// What the validator of this type makes of `raw`: the TRB that wraps `raw` if `raw` is a valid
    /// Transfer Event TRB, and `raw` itself if it is not.
    pub open spec fn validate(raw: [u32; 4]) -> Result<Self, [u32; 4]> {
        if is_event_of(raw@, Type::TransferEvent) {
            Ok(Self::spec_from_raw(raw))
        } else {
            Err(raw)
        }
    }

    /// What holds of every Transfer Event TRB.
    #[verifier::type_invariant]
    pub open spec fn wf(self) -> bool {
        is_event_of(self@, Type::TransferEvent)
    }

    /// The value of the Cycle Bit.
    pub open spec fn spec_cycle_bit(&self) -> bool {
        cycle_bit_of(self@)
    }

    /// The Completion Code: the code that the Completion Code field stands for, or the field's
    /// value where it stands for none.
    pub open spec fn spec_completion_code(&self) -> Result<CompletionCode, u8> {
        completion_code_of(self@)
    }

    /// The value of the TRB Pointer field: word 0 is its low half, word 1 its high half.
    pub open spec fn spec_trb_pointer(&self) -> u64 {
        join64(self@[0], self@[1])
    }

    /// The value of the TRB Transfer Length field: bits 0..=23 of word 2.
    pub open spec fn spec_trb_transfer_length(&self) -> u32 {
        field32(self@[2], 0, 23)
    }

    /// The value of the Event Data field: bit 2 of word 3.
    pub open spec fn spec_event_data(&self) -> bool {
        bit32(self@[3], 2)
    }

    /// The value of the Endpoint ID field: bits 16..=20 of word 3.
    pub open spec fn spec_endpoint_id(&self) -> u8 {
        field32(self@[3], 16, 20) as u8
    }

    /// The value of the Slot ID field: bits 24..=31 of word 3.
    pub open spec fn spec_slot_id(&self) -> u8 {
        field32(self@[3], 24, 31) as u8
    }

    /// Wrapping an array and unwrapping a TRB undo each other.
    pub proof fn lemma_spec_from_raw(t: Self, raw: [u32; 4])
        ensures
            Self::spec_from_raw(raw).into_raw() == raw,
            Self::spec_from_raw(t.into_raw()) == t,
    {
    }

    /// Creates a new Transfer Event TRB.
    ///
    /// This method sets the value of the TRB Type field properly. All the other fields are set to
    /// 0.
    #[must_use]
    pub fn new() -> (r: Self)
        ensures
            r.wf(),
            r@ == fresh(Type::TransferEvent),
            r@[3] == 0x8000,
            !r.cycle_bit(),
            r.completion_code() == Ok::<CompletionCode, u8>(CompletionCode::Invalid),
            r.trb_pointer() == 0,
            r.trb_transfer_length() == 0,
            !r.event_data(),
            r.endpoint_id() == 0,
            r.slot_id() == 0,
    {
        let raw: [u32; 4] = fresh_words(Type::TransferEvent);
        proof {
            lemma_fresh(Type::TransferEvent);
            lemma_reserved_ranges(Type::TransferEvent);
            lemma_fresh_conforms(Type::TransferEvent, reserved_ranges(Type::TransferEvent));
            lemma_field32_of_zero(24, 31);
            lemma_join64_value(0, 0);
            lemma_field32_of_zero(0, 23);
        }
        TransferEvent(raw)
    }

    /// Returns the wrapped array.
    #[must_use]
    #[verifier::when_used_as_spec(spec_into_raw)]
    pub fn into_raw(self) -> (r: [u32; 4])
        ensures
            r == self.spec_into_raw(),
            is_event_of(r@, Type::TransferEvent),
    {
        proof {
            use_type_invariant(&self);
        }
        self.0
    }

    /// Returns the value of the Cycle Bit.
    #[must_use]
    #[verifier::when_used_as_spec(spec_cycle_bit)]
    pub fn cycle_bit(&self) -> (r: bool)
        ensures
            r == self.spec_cycle_bit(),
    {
        get_bit32(self.0[3], 0)
    }

    /// Sets the value of the Cycle Bit.
    ///
    /// No other field changes.
    pub fn set_cycle_bit(&mut self, b: bool) -> (ret: &mut Self)
        ensures
            *final(self) == *final(ret),
            ret.wf(),
            ret@ == with_cycle_bit(old(self)@, b),
            ret.cycle_bit() == b,
            ret.completion_code() == old(self).completion_code(),
            ret.trb_pointer() == old(self).trb_pointer(),
            ret.trb_transfer_length() == old(self).trb_transfer_length(),
            ret.event_data() == old(self).event_data(),
            ret.endpoint_id() == old(self).endpoint_id(),
            ret.slot_id() == old(self).slot_id(),
    {
        proof {
            use_type_invariant(&*self);
            lemma_reserved_ranges(Type::TransferEvent);
            lemma_cycle_bit_is_independent(self@, b);
            lemma_cycle_bit_keeps_conformance(
                self@,
                b,
                Type::TransferEvent,
                reserved_ranges(Type::TransferEvent),
            );
        }
        let word: u32 = set_bit32(self.0[3], 0, b);
        self.0[3] = word;
        self
    }

    /// Returns the Completion Code.
    ///
    /// # Errors
    ///
    /// This method returns an [`Err`] value with the Completion Code that is either reserved or not
    /// implemented by this crate.
    #[verifier::when_used_as_spec(spec_completion_code)]
    pub fn completion_code(&self) -> (r: Result<CompletionCode, u8>)
        ensures
            r == self.spec_completion_code(),
    {
        read_completion_code(&self.0)
    }

    /// Returns the value of the TRB Pointer field.
    #[must_use]
    #[verifier::when_used_as_spec(spec_trb_pointer)]
    pub fn trb_pointer(&self) -> (r: u64)
        ensures
            r == self.spec_trb_pointer(),
    {
        let l: u64 = self.0[0] as u64;
        let u: u64 = self.0[1] as u64;

        (u << 32) | l
    }

    /// Returns the value of the TRB Transfer Length field.
    #[must_use]
    #[verifier::when_used_as_spec(spec_trb_transfer_length)]
    pub fn trb_transfer_length(&self) -> (r: u32)
        ensures
            r == self.spec_trb_transfer_length(),
            r <= 0xff_ffff,
    {
        proof {
            lemma_field_max32(0, 23);
            lemma_field32_bound(self.0[2], 0, 23);
        }
        get_bits32(self.0[2], 0, 23)
    }

    /// Returns the value of the Event Data field.
    #[must_use]
    #[verifier::when_used_as_spec(spec_event_data)]
    pub fn event_data(&self) -> (r: bool)
        ensures
            r == self.spec_event_data(),
    {
        get_bit32(self.0[3], 2)
    }

    /// Returns the value of the Endpoint ID field.
    #[must_use]
    #[verifier::when_used_as_spec(spec_endpoint_id)]
    pub fn endpoint_id(&self) -> (r: u8)
        ensures
            r == self.spec_endpoint_id(),
            r <= 0x1f,
    {
        proof {
            lemma_field_max32(16, 20);
            lemma_field32_bound(self.0[3], 16, 20);
        }
        let bits: u32 = get_bits32(self.0[3], 16, 20);
        bits as u8
    }

    /// Returns the value of the Slot ID field.
    #[must_use]
    #[verifier::when_used_as_spec(spec_slot_id)]
    pub fn slot_id(&self) -> (r: u8)
        ensures
            r == self.spec_slot_id(),
    {
        proof {
            lemma_field_max32(24, 31);
            lemma_field32_bound(self.0[3], 24, 31);
        }
        let bits: u32 = get_bits32(self.0[3], 24, 31);
        bits as u8
    }
}

impl TryFrom<[u32; 4]> for TransferEvent {
    type Error = [u32; 4];

    /// Wraps `raw` if it is a valid Transfer Event TRB: if its TRB Type field says so and bit 1 of
    /// word 3, bits 3..=9 of word 3 and bits 21..=23 of word 3 are zero. Hands `raw` back if it is
    /// not.
    fn try_from(raw: [u32; 4]) -> (r: Result<Self, [u32; 4]>)
        ensures
            r == Self::validate(raw),
            is_event_of(raw@, Type::TransferEvent) ==> r is Ok && r->Ok_0.into_raw() == raw,
            !is_event_of(raw@, Type::TransferEvent) ==> r == Err::<Self, [u32; 4]>(raw),
    {
        proof {
            lemma_reserved_ranges(Type::TransferEvent);
        }
        if conforms_to(&raw, Type::TransferEvent, &TRANSFER_EVENT_RESERVED) {
            Ok(TransferEvent(raw))
        } else {
            Err(raw)
        }
    }
}

impl TryFromSpecImpl<[u32; 4]> for TransferEvent {
    open spec fn obeys_try_from_spec() -> bool {
        true
    }

    open spec fn try_from_spec(raw: [u32; 4]) -> Result<Self, [u32; 4]> {
        Self::validate(raw)
    }
}

impl Default for TransferEvent {
    /// Creates a new Transfer Event TRB, as `new` does.
    fn default() -> (r: Self)
        ensures
            r.wf(),
            r@ == fresh(Type::TransferEvent),
    {
        Self::new()
    }
}

impl AsRef<[u32]> for TransferEvent {
    /// Returns the four words of the TRB.
    fn as_ref(&self) -> (r: &[u32])
        ensures
            r@ == self@,
    {
        &self.0
    }
}

impl From<TransferEvent> for [u32; 4] {
    /// Returns the wrapped array.
    fn from(t: TransferEvent) -> (r: [u32; 4])
        ensures
            r == t.into_raw(),
    {
        t.0
    }
}

impl FromSpecImpl<TransferEvent> for [u32; 4] {
    open spec fn obeys_from_spec() -> bool {
        true
    }

    open spec fn from_spec(t: TransferEvent) -> [u32; 4] {
        t.into_raw()
    }
}

impl From<TransferEvent> for Allowed {
    /// Wraps the TRB in the variant of its type.
    fn from(v: TransferEvent) -> (r: Allowed)
        ensures
            r == Allowed::TransferEvent(v),
            r.ty() == Type::TransferEvent,
    {
        Allowed::TransferEvent(v)
    }
}

impl FromSpecImpl<TransferEvent> for Allowed {
    open spec fn obeys_from_spec() -> bool {
        true
    }

    open spec fn from_spec(v: TransferEvent) -> Allowed {
        Allowed::TransferEvent(v)
    }
}

/// The ranges that a Command Completion Event TRB reserves.
pub const COMMAND_COMPLETION_RESERVED: [ReservedRange; 2] = [
    (0, 0, 3),
    (3, 1, 9),
];

/// Command Completion Event TRB
///
/// A value of this type is always a valid Command Completion Event TRB: its TRB Type field says so,
/// and the bits that the type reserves are zero.
#[derive(Copy, Clone, Debug, PartialEq, Eq, PartialOrd, Ord, Hash)]
pub struct CommandCompletion([u32; 4]);

impl View for CommandCompletion {
    type V = Seq<u32>;

    /// The four words of the TRB.
    open spec fn view(&self) -> Seq<u32> {
        self.into_raw()@
    }
}

impl CommandCompletion {
    /// The wrapped array.
    pub closed spec fn spec_into_raw(self) -> [u32; 4] {
        self.0
    }

    /// The TRB that wraps `raw`. It is a Command Completion Event TRB only if `raw` is a valid one.
    pub closed spec fn spec_from_raw(raw: [u32; 4]) -> Self {
        CommandCompletion(raw)
    }

    /// What the validator of this type makes of `raw`: the TRB that wraps `raw` if `raw` is a valid
    /// Command Completion Event TRB, and `raw` itself if it is not.
    pub open spec fn validate(raw: [u32; 4]) -> Result<Self, [u32; 4]> {
        if is_event_of(raw@, Type::CommandCompletion) {
            Ok(Self::spec_from_raw(raw))
        } else {
            Err(raw)
        }
    }

    /// What holds of every Command Completion Event TRB.
    #[verifier::type_invariant]
    pub open spec fn wf(self) -> bool {
        is_event_of(self@, Type::CommandCompletion)
    }

    /// The value of the Cycle Bit.
    pub open spec fn spec_cycle_bit(&self) -> bool {
        cycle_bit_of(self@)
    }

    /// The Completion Code: the code that the Completion Code field stands for, or the field's
    /// value where it stands for none.
    pub open spec fn spec_completion_code(&self) -> Result<CompletionCode, u8> {
        completion_code_of(self@)
    }

    /// The value of the Command TRB Pointer field: word 0 is its low half, word 1 its high half.
    pub open spec fn spec_command_trb_pointer(&self) -> u64 {
        join64(self@[0], self@[1])
    }

    /// The value of the Command Completion Parameter field: bits 0..=23 of word 2.
    pub open spec fn spec_command_completion_parameter(&self) -> u32 {
        field32(self@[2], 0, 23)
    }

    /// The value of the VF (Virtual Function) ID field: bits 16..=23 of word 3.
    pub open spec fn spec_vf_id(&self) -> u8 {
        field32(self@[3], 16, 23) as u8
    }

    /// The value of the Slot ID field: bits 24..=31 of word 3.
    pub open spec fn spec_slot_id(&self) -> u8 {
        field32(self@[3], 24, 31) as u8
    }

    /// Wrapping an array and unwrapping a TRB undo each other.
    pub proof fn lemma_spec_from_raw(t: Self, raw: [u32; 4])
        ensures
            Self::spec_from_raw(raw).into_raw() == raw,
            Self::spec_from_raw(t.into_raw()) == t,
    {
    }

    /// Creates a new Command Completion Event TRB.
    ///
    /// This method sets the value of the TRB Type field properly. All the other fields are set to
    /// 0.
    #[must_use]
    pub fn new() -> (r: Self)
        ensures
            r.wf(),
            r@ == fresh(Type::CommandCompletion),
            r@[3] == 0x8400,
            !r.cycle_bit(),
            r.completion_code() == Ok::<CompletionCode, u8>(CompletionCode::Invalid),
            r.command_trb_pointer() == 0,
            r.command_completion_parameter() == 0,
            r.vf_id() == 0,
            r.slot_id() == 0,
    {
        let raw: [u32; 4] = fresh_words(Type::CommandCompletion);
        proof {
            lemma_fresh(Type::CommandCompletion);
            lemma_reserved_ranges(Type::CommandCompletion);
            lemma_fresh_conforms(Type::CommandCompletion, reserved_ranges(Type::CommandCompletion));
            lemma_field32_of_zero(24, 31);
            lemma_join64_value(0, 0);
            lemma_field32_of_zero(0, 23);
        }
        CommandCompletion(raw)
    }

    /// Returns the wrapped array.
    #[must_use]
    #[verifier::when_used_as_spec(spec_into_raw)]
    pub fn into_raw(self) -> (r: [u32; 4])
        ensures
            r == self.spec_into_raw(),
            is_event_of(r@, Type::CommandCompletion),
    {
        proof {
            use_type_invariant(&self);
        }
        self.0
    }

    /// Returns the value of the Cycle Bit.
    #[must_use]
    #[verifier::when_used_as_spec(spec_cycle_bit)]
    pub fn cycle_bit(&self) -> (r: bool)
        ensures
            r == self.spec_cycle_bit(),
    {
        get_bit32(self.0[3], 0)
    }

    /// Sets the value of the Cycle Bit.
    ///
    /// No other field changes.
    pub fn set_cycle_bit(&mut self, b: bool) -> (ret: &mut Self)
        ensures
            *final(self) == *final(ret),
            ret.wf(),
            ret@ == with_cycle_bit(old(self)@, b),
            ret.cycle_bit() == b,
            ret.completion_code() == old(self).completion_code(),
            ret.command_trb_pointer() == old(self).command_trb_pointer(),
            ret.command_completion_parameter() == old(self).command_completion_parameter(),
            ret.vf_id() == old(self).vf_id(),
            ret.slot_id() == old(self).slot_id(),
    {
        proof {
            use_type_invariant(&*self);
            lemma_reserved_ranges(Type::CommandCompletion);
            lemma_cycle_bit_is_independent(self@, b);
            lemma_cycle_bit_keeps_conformance(
                self@,
                b,
                Type::CommandCompletion,
                reserved_ranges(Type::CommandCompletion),
            );
        }
        let word: u32 = set_bit32(self.0[3], 0, b);
        self.0[3] = word;
        self
    }

    /// Returns the Completion Code.
    ///
    /// # Errors
    ///
    /// This method returns an [`Err`] value with the Completion Code that is either reserved or not
    /// implemented by this crate.
    #[verifier::when_used_as_spec(spec_completion_code)]
    pub fn completion_code(&self) -> (r: Result<CompletionCode, u8>)
        ensures
            r == self.spec_completion_code(),
    {
        read_completion_code(&self.0)
    }

    /// Returns the value of the Command TRB Pointer field.
    #[must_use]
    #[verifier::when_used_as_spec(spec_command_trb_pointer)]
    pub fn command_trb_pointer(&self) -> (r: u64)
        ensures
            r == self.spec_command_trb_pointer(),
    {
        let l: u64 = self.0[0] as u64;
        let u: u64 = self.0[1] as u64;

        (u << 32) | l
    }

    /// Returns the value of the Command Completion Parameter field.
    #[must_use]
    #[verifier::when_used_as_spec(spec_command_completion_parameter)]
    pub fn command_completion_parameter(&self) -> (r: u32)
        ensures
            r == self.spec_command_completion_parameter(),
            r <= 0xff_ffff,
    {
        proof {
            lemma_field_max32(0, 23);
            lemma_field32_bound(self.0[2], 0, 23);
        }
        get_bits32(self.0[2], 0, 23)
    }

    /// Returns the value of the VF (Virtual Function) ID field.
    #[must_use]
    #[verifier::when_used_as_spec(spec_vf_id)]
    pub fn vf_id(&self) -> (r: u8)
        ensures
            r == self.spec_vf_id(),
    {
        proof {
            lemma_field_max32(16, 23);
            lemma_field32_bound(self.0[3], 16, 23);
        }
        let bits: u32 = get_bits32(self.0[3], 16, 23);
        bits as u8
    }

    /// Returns the value of the Slot ID field.
    #[must_use]
    #[verifier::when_used_as_spec(spec_slot_id)]
    pub fn slot_id(&self) -> (r: u8)
        ensures
            r == self.spec_slot_id(),
    {
        proof {
            lemma_field_max32(24, 31);
            lemma_field32_bound(self.0[3], 24, 31);
        }
        let bits: u32 = get_bits32(self.0[3], 24, 31);
        bits as u8
    }
}

impl TryFrom<[u32; 4]> for CommandCompletion {
    type Error = [u32; 4];

    /// Wraps `raw` if it is a valid Command Completion Event TRB: if its TRB Type field says so and
    /// bits 0..=3 of word 0 and bits 1..=9 of word 3 are zero. Hands `raw` back if it is not.
    fn try_from(raw: [u32; 4]) -> (r: Result<Self, [u32; 4]>)
        ensures
            r == Self::validate(raw),
            is_event_of(raw@, Type::CommandCompletion) ==> r is Ok && r->Ok_0.into_raw() == raw,
            !is_event_of(raw@, Type::CommandCompletion) ==> r == Err::<Self, [u32; 4]>(raw),
    {
        proof {
            lemma_reserved_ranges(Type::CommandCompletion);
        }
        if conforms_to(&raw, Type::CommandCompletion, &COMMAND_COMPLETION_RESERVED) {
            Ok(CommandCompletion(raw))
        } else {
            Err(raw)
        }
    }
}

impl TryFromSpecImpl<[u32; 4]> for CommandCompletion {
    open spec fn obeys_try_from_spec() -> bool {
        true
    }

    open spec fn try_from_spec(raw: [u32; 4]) -> Result<Self, [u32; 4]> {
        Self::validate(raw)
    }
}

impl Default for CommandCompletion {
    /// Creates a new Command Completion Event TRB, as `new` does.
    fn default() -> (r: Self)
        ensures
            r.wf(),
            r@ == fresh(Type::CommandCompletion),
    {
        Self::new()
    }
}

impl AsRef<[u32]> for CommandCompletion {
    /// Returns the four words of the TRB.
    fn as_ref(&self) -> (r: &[u32])
        ensures
            r@ == self@,
    {
        &self.0
    }
}

impl From<CommandCompletion> for [u32; 4] {
    /// Returns the wrapped array.
    fn from(t: CommandCompletion) -> (r: [u32; 4])
        ensures
            r == t.into_raw(),
    {
        t.0
    }
}

impl FromSpecImpl<CommandCompletion> for [u32; 4] {
    open spec fn obeys_from_spec() -> bool {
        true
    }

    open spec fn from_spec(t: CommandCompletion) -> [u32; 4] {
        t.into_raw()
    }
}

impl From<CommandCompletion> for Allowed {
    /// Wraps the TRB in the variant of its type.
    fn from(v: CommandCompletion) -> (r: Allowed)
        ensures
            r == Allowed::CommandCompletion(v),
            r.ty() == Type::CommandCompletion,
    {
        Allowed::CommandCompletion(v)
    }
}

impl FromSpecImpl<CommandCompletion> for Allowed {
    open spec fn obeys_from_spec() -> bool {
        true
    }

    open spec fn from_spec(v: CommandCompletion) -> Allowed {
        Allowed::CommandCompletion(v)
    }
}

/// The ranges that a Port Status Change Event TRB reserves.
pub const PORT_STATUS_CHANGE_RESERVED: [ReservedRange; 5] = [
    (0, 0, 23),
    (1, 0, 31),
    (2, 0, 23),
    (3, 1, 9),
    (3, 16, 31),
];

/// Port Status Change Event TRB
///
/// A value of this type is always a valid Port Status Change Event TRB: its TRB Type field says so,
/// and the bits that the type reserves are zero.
#[derive(Copy, Clone, Debug, PartialEq, Eq, PartialOrd, Ord, Hash)]
pub struct PortStatusChange([u32; 4]);

impl View for PortStatusChange {
    type V = Seq<u32>;

    /// The four words of the TRB.
    open spec fn view(&self) -> Seq<u32> {
        self.into_raw()@
    }
}

impl PortStatusChange {
    /// The wrapped array.
    pub closed spec fn spec_into_raw(self) -> [u32; 4] {
        self.0
    }

    /// The TRB that wraps `raw`. It is a Port Status Change Event TRB only if `raw` is a valid one.
    pub closed spec fn spec_from_raw(raw: [u32; 4]) -> Self {
        PortStatusChange(raw)
    }

    /// What the validator of this type makes of `raw`: the TRB that wraps `raw` if `raw` is a valid
    /// Port Status Change Event TRB, and `raw` itself if it is not.
    pub open spec fn validate(raw: [u32; 4]) -> Result<Self, [u32; 4]> {
        if is_event_of(raw@, Type::PortStatusChange) {
            Ok(Self::spec_from_raw(raw))
        } else {
            Err(raw)
        }
    }

    /// What holds of every Port Status Change Event TRB.
    #[verifier::type_invariant]
    pub open spec fn wf(self) -> bool {
        is_event_of(self@, Type::PortStatusChange)
    }

    /// The value of the Cycle Bit.
    pub open spec fn spec_cycle_bit(&self) -> bool {
        cycle_bit_of(self@)
    }

    /// The Completion Code: the code that the Completion Code field stands for, or the field's
    /// value where it stands for none.
    pub open spec fn spec_completion_code(&self) -> Result<CompletionCode, u8> {
        completion_code_of(self@)
    }

    /// The value of the Port ID field: bits 24..=31 of word 0.
    pub open spec fn spec_port_id(&self) -> u8 {
        field32(self@[0], 24, 31) as u8
    }

    /// Wrapping an array and unwrapping a TRB undo each other.
    pub proof fn lemma_spec_from_raw(t: Self, raw: [u32; 4])
        ensures
            Self::spec_from_raw(raw).into_raw() == raw,
            Self::spec_from_raw(t.into_raw()) == t,
    {
    }

    /// Creates a new Port Status Change Event TRB.
    ///
    /// This method sets the value of the TRB Type field properly. All the other fields are set to
    /// 0.
    #[must_use]
    pub fn new() -> (r: Self)
        ensures
            r.wf(),
            r@ == fresh(Type::PortStatusChange),
            r@[3] == 0x8800,
            !r.cycle_bit(),
            r.completion_code() == Ok::<CompletionCode, u8>(CompletionCode::Invalid),
            r.port_id() == 0,
    {
        let raw: [u32; 4] = fresh_words(Type::PortStatusChange);
        proof {
            lemma_fresh(Type::PortStatusChange);
            lemma_reserved_ranges(Type::PortStatusChange);
            lemma_fresh_conforms(Type::PortStatusChange, reserved_ranges(Type::PortStatusChange));
            lemma_field32_of_zero(24, 31);
            lemma_field32_of_zero(24, 31);
        }
        PortStatusChange(raw)
    }

    /// Returns the wrapped array.
    #[must_use]
    #[verifier::when_used_as_spec(spec_into_raw)]
    pub fn into_raw(self) -> (r: [u32; 4])
        ensures
            r == self.spec_into_raw(),
            is_event_of(r@, Type::PortStatusChange),
    {
        proof {
            use_type_invariant(&self);
        }
        self.0
    }

    /// Returns the value of the Cycle Bit.
    #[must_use]
    #[verifier::when_used_as_spec(spec_cycle_bit)]
    pub fn cycle_bit(&self) -> (r: bool)
        ensures
            r == self.spec_cycle_bit(),
    {
        get_bit32(self.0[3], 0)
    }

    /// Sets the value of the Cycle Bit.
    ///
    /// No other field changes.
    pub fn set_cycle_bit(&mut self, b: bool) -> (ret: &mut Self)
        ensures
            *final(self) == *final(ret),
            ret.wf(),
            ret@ == with_cycle_bit(old(self)@, b),
            ret.cycle_bit() == b,
            ret.completion_code() == old(self).completion_code(),
            ret.port_id() == old(self).port_id(),
    {
        proof {
            use_type_invariant(&*self);
            lemma_reserved_ranges(Type::PortStatusChange);
            lemma_cycle_bit_is_independent(self@, b);
            lemma_cycle_bit_keeps_conformance(
                self@,
                b,
                Type::PortStatusChange,
                reserved_ranges(Type::PortStatusChange),
            );
        }
        let word: u32 = set_bit32(self.0[3], 0, b);
        self.0[3] = word;
        self
    }

    /// Returns the Completion Code.
    ///
    /// # Errors
    ///
    /// This method returns an [`Err`] value with the Completion Code that is either reserved or not
    /// implemented by this crate.
    #[verifier::when_used_as_spec(spec_completion_code)]
    pub fn completion_code(&self) -> (r: Result<CompletionCode, u8>)
        ensures
            r == self.spec_completion_code(),
    {
        read_completion_code(&self.0)
    }

    /// Returns the value of the Port ID field.
    #[must_use]
    #[verifier::when_used_as_spec(spec_port_id)]
    pub fn port_id(&self) -> (r: u8)
        ensures
            r == self.spec_port_id(),
    {
        proof {
            lemma_field_max32(24, 31);
            lemma_field32_bound(self.0[0], 24, 31);
        }
        let bits: u32 = get_bits32(self.0[0], 24, 31);
        bits as u8
    }
}

impl TryFrom<[u32; 4]> for PortStatusChange {
    type Error = [u32; 4];

    /// Wraps `raw` if it is a valid Port Status Change Event TRB: if its TRB Type field says so and
    /// bits 0..=23 of word 0, all of word 1, bits 0..=23 of word 2, bits 1..=9 of word 3 and bits
    /// 16..=31 of word 3 are zero. Hands `raw` back if it is not.
    fn try_from(raw: [u32; 4]) -> (r: Result<Self, [u32; 4]>)
        ensures
            r == Self::validate(raw),
            is_event_of(raw@, Type::PortStatusChange) ==> r is Ok && r->Ok_0.into_raw() == raw,
            !is_event_of(raw@, Type::PortStatusChange) ==> r == Err::<Self, [u32; 4]>(raw),
    {
        proof {
            lemma_reserved_ranges(Type::PortStatusChange);
        }
        if conforms_to(&raw, Type::PortStatusChange, &PORT_STATUS_CHANGE_RESERVED) {
            Ok(PortStatusChange(raw))
        } else {
            Err(raw)
        }
    }
}

impl TryFromSpecImpl<[u32; 4]> for PortStatusChange {
    open spec fn obeys_try_from_spec() -> bool {
        true
    }

    open spec fn try_from_spec(raw: [u32; 4]) -> Result<Self, [u32; 4]> {
        Self::validate(raw)
    }
}

impl Default for PortStatusChange {
    /// Creates a new Port Status Change Event TRB, as `new` does.
    fn default() -> (r: Self)
        ensures
            r.wf(),
            r@ == fresh(Type::PortStatusChange),
    {
        Self::new()
    }
}

impl AsRef<[u32]> for PortStatusChange {
    /// Returns the four words of the TRB.
    fn as_ref(&self) -> (r: &[u32])
        ensures
            r@ == self@,
    {
        &self.0
    }
}

impl From<PortStatusChange> for [u32; 4] {
    /// Returns the wrapped array.
    fn from(t: PortStatusChange) -> (r: [u32; 4])
        ensures
            r == t.into_raw(),
    {
        t.0
    }
}

impl FromSpecImpl<PortStatusChange> for [u32; 4] {
    open spec fn obeys_from_spec() -> bool {
        true
    }

    open spec fn from_spec(t: PortStatusChange) -> [u32; 4] {
        t.into_raw()
    }
}

impl From<PortStatusChange> for Allowed {
    /// Wraps the TRB in the variant of its type.
    fn from(v: PortStatusChange) -> (r: Allowed)
        ensures
            r == Allowed::PortStatusChange(v),
            r.ty() == Type::PortStatusChange,
    {
        Allowed::PortStatusChange(v)
    }
}

impl FromSpecImpl<PortStatusChange> for Allowed {
    open spec fn obeys_from_spec() -> bool {
        true
    }

    open spec fn from_spec(v: PortStatusChange) -> Allowed {
        Allowed::PortStatusChange(v)
    }
}

/// The ranges that a Bandwidth Request Event TRB reserves.
pub const BANDWIDTH_REQUEST_RESERVED: [ReservedRange; 5] = [
    (0, 0, 31),
    (1, 0, 31),
    (2, 0, 23),
    (3, 1, 9),
    (3, 16, 23),
];

/// Bandwidth Request Event TRB
///
/// A value of this type is always a valid Bandwidth Request Event TRB: its TRB Type field says so,
/// and the bits that the type reserves are zero.
#[derive(Copy, Clone, Debug, PartialEq, Eq, PartialOrd, Ord, Hash)]
pub struct BandwidthRequest([u32; 4]);

impl View for BandwidthRequest {
    type V = Seq<u32>;

    /// The four words of the TRB.
    open spec fn view(&self) -> Seq<u32> {
        self.into_raw()@
    }
}

impl BandwidthRequest {
    /// The wrapped array.
    pub closed spec fn spec_into_raw(self) -> [u32; 4] {
        self.0
    }

    /// The TRB that wraps `raw`. It is a Bandwidth Request Event TRB only if `raw` is a valid one.
    pub closed spec fn spec_from_raw(raw: [u32; 4]) -> Self {
        BandwidthRequest(raw)
    }

    /// What the validator of this type makes of `raw`: the TRB that wraps `raw` if `raw` is a valid
    /// Bandwidth Request Event TRB, and `raw` itself if it is not.
    pub open spec fn validate(raw: [u32; 4]) -> Result<Self, [u32; 4]> {
        if is_event_of(raw@, Type::BandwidthRequest) {
            Ok(Self::spec_from_raw(raw))
        } else {
            Err(raw)
        }
    }

    /// What holds of every Bandwidth Request Event TRB.
    #[verifier::type_invariant]
    pub open spec fn wf(self) -> bool {
        is_event_of(self@, Type::BandwidthRequest)
    }

    /// The value of the Cycle Bit.
    pub open spec fn spec_cycle_bit(&self) -> bool {
        cycle_bit_of(self@)
    }

    /// The Completion Code: the code that the Completion Code field stands for, or the field's
    /// value where it stands for none.
    pub open spec fn spec_completion_code(&self) -> Result<CompletionCode, u8> {
        completion_code_of(self@)
    }

    /// The value of the Slot ID field: bits 24..=31 of word 3.
    pub open spec fn spec_slot_id(&self) -> u8 {
        field32(self@[3], 24, 31) as u8
    }

    /// Wrapping an array and unwrapping a TRB undo each other.
    pub proof fn lemma_spec_from_raw(t: Self, raw: [u32; 4])
        ensures
            Self::spec_from_raw(raw).into_raw() == raw,
            Self::spec_from_raw(t.into_raw()) == t,
    {
    }

    /// Creates a new Bandwidth Request Event TRB.
    ///
    /// This method sets the value of the TRB Type field properly. All the other fields are set to
    /// 0.
    #[must_use]
    pub fn new() -> (r: Self)
        ensures
            r.wf(),
            r@ == fresh(Type::BandwidthRequest),
            r@[3] == 0x8c00,
            !r.cycle_bit(),
            r.completion_code() == Ok::<CompletionCode, u8>(CompletionCode::Invalid),
            r.slot_id() == 0,
    {
        let raw: [u32; 4] = fresh_words(Type::BandwidthRequest);
        proof {
            lemma_fresh(Type::BandwidthRequest);
            lemma_reserved_ranges(Type::BandwidthRequest);
            lemma_fresh_conforms(Type::BandwidthRequest, reserved_ranges(Type::BandwidthRequest));
            lemma_field32_of_zero(24, 31);
        }
        BandwidthRequest(raw)
    }

    /// Returns the wrapped array.
    #[must_use]
    #[verifier::when_used_as_spec(spec_into_raw)]
    pub fn into_raw(self) -> (r: [u32; 4])
        ensures
            r == self.spec_into_raw(),
            is_event_of(r@, Type::BandwidthRequest),
    {
        proof {
            use_type_invariant(&self);
        }
        self.0
    }

    /// Returns the value of the Cycle Bit.
    #[must_use]
    #[verifier::when_used_as_spec(spec_cycle_bit)]
    pub fn cycle_bit(&self) -> (r: bool)
        ensures
            r == self.spec_cycle_bit(),
    {
        get_bit32(self.0[3], 0)
    }

    /// Sets the value of the Cycle Bit.
    ///
    /// No other field changes.
    pub fn set_cycle_bit(&mut self, b: bool) -> (ret: &mut Self)
        ensures
            *final(self) == *final(ret),
            ret.wf(),
            ret@ == with_cycle_bit(old(self)@, b),
            ret.cycle_bit() == b,
            ret.completion_code() == old(self).completion_code(),
            ret.slot_id() == old(self).slot_id(),
    {
        proof {
            use_type_invariant(&*self);
            lemma_reserved_ranges(Type::BandwidthRequest);
            lemma_cycle_bit_is_independent(self@, b);
            lemma_cycle_bit_keeps_conformance(
                self@,
                b,
                Type::BandwidthRequest,
                reserved_ranges(Type::BandwidthRequest),
            );
        }
        let word: u32 = set_bit32(self.0[3], 0, b);
        self.0[3] = word;
        self
    }

    /// Returns the Completion Code.
    ///
    /// # Errors
    ///
    /// This method returns an [`Err`] value with the Completion Code that is either reserved or not
    /// implemented by this crate.
    #[verifier::when_used_as_spec(spec_completion_code)]
    pub fn completion_code(&self) -> (r: Result<CompletionCode, u8>)
        ensures
            r == self.spec_completion_code(),
    {
        read_completion_code(&self.0)
    }

    /// Returns the value of the Slot ID field.
    #[must_use]
    #[verifier::when_used_as_spec(spec_slot_id)]
    pub fn slot_id(&self) -> (r: u8)
        ensures
            r == self.spec_slot_id(),
    {
        proof {
            lemma_field_max32(24, 31);
            lemma_field32_bound(self.0[3], 24, 31);
        }
        let bits: u32 = get_bits32(self.0[3], 24, 31);
        bits as u8
    }
}

impl TryFrom<[u32; 4]> for BandwidthRequest {
    type Error = [u32; 4];

    /// Wraps `raw` if it is a valid Bandwidth Request Event TRB: if its TRB Type field says so and
    /// all of word 0, all of word 1, bits 0..=23 of word 2, bits 1..=9 of word 3 and bits 16..=23
    /// of word 3 are zero. Hands `raw` back if it is not.
    fn try_from(raw: [u32; 4]) -> (r: Result<Self, [u32; 4]>)
        ensures
            r == Self::validate(raw),
            is_event_of(raw@, Type::BandwidthRequest) ==> r is Ok && r->Ok_0.into_raw() == raw,
            !is_event_of(raw@, Type::BandwidthRequest) ==> r == Err::<Self, [u32; 4]>(raw),
    {
        proof {
            lemma_reserved_ranges(Type::BandwidthRequest);
        }
        if conforms_to(&raw, Type::BandwidthRequest, &BANDWIDTH_REQUEST_RESERVED) {
            Ok(BandwidthRequest(raw))
        } else {
            Err(raw)
        }
    }
}

impl TryFromSpecImpl<[u32; 4]> for BandwidthRequest {
    open spec fn obeys_try_from_spec() -> bool {
        true
    }

    open spec fn try_from_spec(raw: [u32; 4]) -> Result<Self, [u32; 4]> {
        Self::validate(raw)
    }
}

impl Default for BandwidthRequest {
    /// Creates a new Bandwidth Request Event TRB, as `new` does.
    fn default() -> (r: Self)
        ensures
            r.wf(),
            r@ == fresh(Type::BandwidthRequest),
    {
        Self::new()
    }
}

impl AsRef<[u32]> for BandwidthRequest {
    /// Returns the four words of the TRB.
    fn as_ref(&self) -> (r: &[u32])
        ensures
            r@ == self@,
    {
        &self.0
    }
}

impl From<BandwidthRequest> for [u32; 4] {
    /// Returns the wrapped array.
    fn from(t: BandwidthRequest) -> (r: [u32; 4])
        ensures
            r == t.into_raw(),
    {
        t.0
    }
}

impl FromSpecImpl<BandwidthRequest> for [u32; 4] {
    open spec fn obeys_from_spec() -> bool {
        true
    }

    open spec fn from_spec(t: BandwidthRequest) -> [u32; 4] {
        t.into_raw()
    }
}

impl From<BandwidthRequest> for Allowed {
    /// Wraps the TRB in the variant of its type.
    fn from(v: BandwidthRequest) -> (r: Allowed)
        ensures
            r == Allowed::BandwidthRequest(v),
            r.ty() == Type::BandwidthRequest,
    {
        Allowed::BandwidthRequest(v)
    }
}

impl FromSpecImpl<BandwidthRequest> for Allowed {
    open spec fn obeys_from_spec() -> bool {
        true
    }

    open spec fn from_spec(v: BandwidthRequest) -> Allowed {
        Allowed::BandwidthRequest(v)
    }
}

/// The ranges that a Doorbell Event TRB reserves.
pub const DOORBELL_RESERVED: [ReservedRange; 4] = [
    (0, 5, 31),
    (1, 0, 31),
    (2, 0, 23),
    (3, 1, 9),
];

/// Doorbell Event TRB
///
/// A value of this type is always a valid Doorbell Event TRB: its TRB Type field says so, and the
/// bits that the type reserves are zero.
#[derive(Copy, Clone, Debug, PartialEq, Eq, PartialOrd, Ord, Hash)]
pub struct Doorbell([u32; 4]);

impl View for Doorbell {
    type V = Seq<u32>;

    /// The four words of the TRB.
    open spec fn view(&self) -> Seq<u32> {
        self.into_raw()@
    }
}

impl Doorbell {
    /// The wrapped array.
    pub closed spec fn spec_into_raw(self) -> [u32; 4] {
        self.0
    }

    /// The TRB that wraps `raw`. It is a Doorbell Event TRB only if `raw` is a valid one.
    pub closed spec fn spec_from_raw(raw: [u32; 4]) -> Self {
        Doorbell(raw)
    }

    /// What the validator of this type makes of `raw`: the TRB that wraps `raw` if `raw` is a valid
    /// Doorbell Event TRB, and `raw` itself if it is not.
    pub open spec fn validate(raw: [u32; 4]) -> Result<Self, [u32; 4]> {
        if is_event_of(raw@, Type::Doorbell) {
            Ok(Self::spec_from_raw(raw))
        } else {
            Err(raw)
        }
    }

    /// What holds of every Doorbell Event TRB.
    #[verifier::type_invariant]
    pub open spec fn wf(self) -> bool {
        is_event_of(self@, Type::Doorbell)
    }

    /// The value of the Cycle Bit.
    pub open spec fn spec_cycle_bit(&self) -> bool {
        cycle_bit_of(self@)
    }

    /// The Completion Code: the code that the Completion Code field stands for, or the field's
    /// value where it stands for none.
    pub open spec fn spec_completion_code(&self) -> Result<CompletionCode, u8> {
        completion_code_of(self@)
    }

    /// The value of the DB Reason field: bits 0..=4 of word 0.
    pub open spec fn spec_db_reason(&self) -> u8 {
        field32(self@[0], 0, 4) as u8
    }

    /// Wrapping an array and unwrapping a TRB undo each other.
    pub proof fn lemma_spec_from_raw(t: Self, raw: [u32; 4])
        ensures
            Self::spec_from_raw(raw).into_raw() == raw,
            Self::spec_from_raw(t.into_raw()) == t,
    {
    }

    /// Creates a new Doorbell Event TRB.
    ///
    /// This method sets the value of the TRB Type field properly. All the other fields are set to
    /// 0.
    #[must_use]
    pub fn new() -> (r: Self)
        ensures
            r.wf(),
            r@ == fresh(Type::Doorbell),
            r@[3] == 0x9000,
            !r.cycle_bit(),
            r.completion_code() == Ok::<CompletionCode, u8>(CompletionCode::Invalid),
            r.db_reason() == 0,
    {
        let raw: [u32; 4] = fresh_words(Type::Doorbell);
        proof {
            lemma_fresh(Type::Doorbell);
            lemma_reserved_ranges(Type::Doorbell);
            lemma_fresh_conforms(Type::Doorbell, reserved_ranges(Type::Doorbell));
            lemma_field32_of_zero(24, 31);
            lemma_field32_of_zero(0, 4);
        }
        Doorbell(raw)
    }

    /// Returns the wrapped array.
    #[must_use]
    #[verifier::when_used_as_spec(spec_into_raw)]
    pub fn into_raw(self) -> (r: [u32; 4])
        ensures
            r == self.spec_into_raw(),
            is_event_of(r@, Type::Doorbell),
    {
        proof {
            use_type_invariant(&self);
        }
        self.0
    }

    /// Returns the value of the Cycle Bit.
    #[must_use]
    #[verifier::when_used_as_spec(spec_cycle_bit)]
    pub fn cycle_bit(&self) -> (r: bool)
        ensures
            r == self.spec_cycle_bit(),
    {
        get_bit32(self.0[3], 0)
    }

    /// Sets the value of the Cycle Bit.
    ///
    /// No other field changes.
    pub fn set_cycle_bit(&mut self, b: bool) -> (ret: &mut Self)
        ensures
            *final(self) == *final(ret),
            ret.wf(),
            ret@ == with_cycle_bit(old(self)@, b),
            ret.cycle_bit() == b,
            ret.completion_code() == old(self).completion_code(),
            ret.db_reason() == old(self).db_reason(),
    {
        proof {
            use_type_invariant(&*self);
            lemma_reserved_ranges(Type::Doorbell);
            lemma_cycle_bit_is_independent(self@, b);
            lemma_cycle_bit_keeps_conformance(
                self@,
                b,
                Type::Doorbell,
                reserved_ranges(Type::Doorbell),
            );
        }
        let word: u32 = set_bit32(self.0[3], 0, b);
        self.0[3] = word;
        self
    }

    /// Returns the Completion Code.
    ///
    /// # Errors
    ///
    /// This method returns an [`Err`] value with the Completion Code that is either reserved or not
    /// implemented by this crate.
    #[verifier::when_used_as_spec(spec_completion_code)]
    pub fn completion_code(&self) -> (r: Result<CompletionCode, u8>)
        ensures
            r == self.spec_completion_code(),
    {
        read_completion_code(&self.0)
    }

    /// Returns the value of the DB Reason field.
    #[must_use]
    #[verifier::when_used_as_spec(spec_db_reason)]
    pub fn db_reason(&self) -> (r: u8)
        ensures
            r == self.spec_db_reason(),
            r <= 0x1f,
    {
        proof {
            lemma_field_max32(0, 4);
            lemma_field32_bound(self.0[0], 0, 4);
        }
        let bits: u32 = get_bits32(self.0[0], 0, 4);
        bits as u8
    }
}

impl TryFrom<[u32; 4]> for Doorbell {
    type Error = [u32; 4];

    /// Wraps `raw` if it is a valid Doorbell Event TRB: if its TRB Type field says so and bits
    /// 5..=31 of word 0, all of word 1, bits 0..=23 of word 2 and bits 1..=9 of word 3 are zero.
    /// Hands `raw` back if it is not.
    fn try_from(raw: [u32; 4]) -> (r: Result<Self, [u32; 4]>)
        ensures
            r == Self::validate(raw),
            is_event_of(raw@, Type::Doorbell) ==> r is Ok && r->Ok_0.into_raw() == raw,
            !is_event_of(raw@, Type::Doorbell) ==> r == Err::<Self, [u32; 4]>(raw),
    {
        proof {
            lemma_reserved_ranges(Type::Doorbell);
        }
        if conforms_to(&raw, Type::Doorbell, &DOORBELL_RESERVED) {
            Ok(Doorbell(raw))
        } else {
            Err(raw)
        }
    }
}

impl TryFromSpecImpl<[u32; 4]> for Doorbell {
    open spec fn obeys_try_from_spec() -> bool {
        true
    }

    open spec fn try_from_spec(raw: [u32; 4]) -> Result<Self, [u32; 4]> {
        Self::validate(raw)
    }
}

impl Default for Doorbell {
    /// Creates a new Doorbell Event TRB, as `new` does.
    fn default() -> (r: Self)
        ensures
            r.wf(),
            r@ == fresh(Type::Doorbell),
    {
        Self::new()
    }
}

impl AsRef<[u32]> for Doorbell {
    /// Returns the four words of the TRB.
    fn as_ref(&self) -> (r: &[u32])
        ensures
            r@ == self@,
    {
        &self.0
    }
}

impl From<Doorbell> for [u32; 4] {
    /// Returns the wrapped array.
    fn from(t: Doorbell) -> (r: [u32; 4])
        ensures
            r == t.into_raw(),
    {
        t.0
    }
}

impl FromSpecImpl<Doorbell> for [u32; 4] {
    open spec fn obeys_from_spec() -> bool {
        true
    }

    open spec fn from_spec(t: Doorbell) -> [u32; 4] {
        t.into_raw()
    }
}

impl From<Doorbell> for Allowed {
    /// Wraps the TRB in the variant of its type.
    fn from(v: Doorbell) -> (r: Allowed)
        ensures
            r == Allowed::Doorbell(v),
            r.ty() == Type::Doorbell,
    {
        Allowed::Doorbell(v)
    }
}

impl FromSpecImpl<Doorbell> for Allowed {
    open spec fn obeys_from_spec() -> bool {
        true
    }

    open spec fn from_spec(v: Doorbell) -> Allowed {
        Allowed::Doorbell(v)
    }
}

/// The ranges that a Host Controller Event TRB reserves.
pub const HOST_CONTROLLER_RESERVED: [ReservedRange; 5] = [
    (0, 0, 31),
    (1, 0, 31),
    (2, 0, 23),
    (3, 1, 9),
    (3, 16, 31),
];

/// Host Controller Event TRB
///
/// A value of this type is always a valid Host Controller Event TRB: its TRB Type field says so,
/// and the bits that the type reserves are zero.
#[derive(Copy, Clone, Debug, PartialEq, Eq, PartialOrd, Ord, Hash)]
pub struct HostController([u32; 4]);

impl View for HostController {
    type V = Seq<u32>;

    /// The four words of the TRB.
    open spec fn view(&self) -> Seq<u32> {
        self.into_raw()@
    }
}

impl HostController {
    /// The wrapped array.
    pub closed spec fn spec_into_raw(self) -> [u32; 4] {
        self.0
    }

    /// The TRB that wraps `raw`. It is a Host Controller Event TRB only if `raw` is a valid one.
    pub closed spec fn spec_from_raw(raw: [u32; 4]) -> Self {
        HostController(raw)
    }

    /// What the validator of this type makes of `raw`: the TRB that wraps `raw` if `raw` is a valid
    /// Host Controller Event TRB, and `raw` itself if it is not.
    pub open spec fn validate(raw: [u32; 4]) -> Result<Self, [u32; 4]> {
        if is_event_of(raw@, Type::HostController) {
            Ok(Self::spec_from_raw(raw))
        } else {
            Err(raw)
        }
    }

    /// What holds of every Host Controller Event TRB.
    #[verifier::type_invariant]
    pub open spec fn wf(self) -> bool {
        is_event_of(self@, Type::HostController)
    }

    /// The value of the Cycle Bit.
    pub open spec fn spec_cycle_bit(&self) -> bool {
        cycle_bit_of(self@)
    }

    /// The Completion Code: the code that the Completion Code field stands for, or the field's
    /// value where it stands for none.
    pub open spec fn spec_completion_code(&self) -> Result<CompletionCode, u8> {
        completion_code_of(self@)
    }


    /// Wrapping an array and unwrapping a TRB undo each other.
    pub proof fn lemma_spec_from_raw(t: Self, raw: [u32; 4])
        ensures
            Self::spec_from_raw(raw).into_raw() == raw,
            Self::spec_from_raw(t.into_raw()) == t,
    {
    }

    /// Creates a new Host Controller Event TRB.
    ///
    /// This method sets the value of the TRB Type field properly. All the other fields are set to
    /// 0.
    #[must_use]
    pub fn new() -> (r: Self)
        ensures
            r.wf(),
            r@ == fresh(Type::HostController),
            r@[3] == 0x9400,
            !r.cycle_bit(),
            r.completion_code() == Ok::<CompletionCode, u8>(CompletionCode::Invalid),
    {
        let raw: [u32; 4] = fresh_words(Type::HostController);
        proof {
            lemma_fresh(Type::HostController);
            lemma_reserved_ranges(Type::HostController);
            lemma_fresh_conforms(Type::HostController, reserved_ranges(Type::HostController));
            lemma_field32_of_zero(24, 31);
        }
        HostController(raw)
    }

    /// Returns the wrapped array.
    #[must_use]
    #[verifier::when_used_as_spec(spec_into_raw)]
    pub fn into_raw(self) -> (r: [u32; 4])
        ensures
            r == self.spec_into_raw(),
            is_event_of(r@, Type::HostController),
    {
        proof {
            use_type_invariant(&self);
        }
        self.0
    }

    /// Returns the value of the Cycle Bit.
    #[must_use]
    #[verifier::when_used_as_spec(spec_cycle_bit)]
    pub fn cycle_bit(&self) -> (r: bool)
        ensures
            r == self.spec_cycle_bit(),
    {
        get_bit32(self.0[3], 0)
    }

    /// Sets the value of the Cycle Bit.
    ///
    /// No other field changes.
    pub fn set_cycle_bit(&mut self, b: bool) -> (ret: &mut Self)
        ensures
            *final(self) == *final(ret),
            ret.wf(),
            ret@ == with_cycle_bit(old(self)@, b),
            ret.cycle_bit() == b,
            ret.completion_code() == old(self).completion_code(),
    {
        proof {
            use_type_invariant(&*self);
            lemma_reserved_ranges(Type::HostController);
            lemma_cycle_bit_is_independent(self@, b);
            lemma_cycle_bit_keeps_conformance(
                self@,
                b,
                Type::HostController,
                reserved_ranges(Type::HostController),
            );
        }
        let word: u32 = set_bit32(self.0[3], 0, b);
        self.0[3] = word;
        self
    }

    /// Returns the Completion Code.
    ///
    /// # Errors
    ///
    /// This method returns an [`Err`] value with the Completion Code that is either reserved or not
    /// implemented by this crate.
    #[verifier::when_used_as_spec(spec_completion_code)]
    pub fn completion_code(&self) -> (r: Result<CompletionCode, u8>)
        ensures
            r == self.spec_completion_code(),
    {
        read_completion_code(&self.0)
    }

}

impl TryFrom<[u32; 4]> for HostController {
    type Error = [u32; 4];

    /// Wraps `raw` if it is a valid Host Controller Event TRB: if its TRB Type field says so and
    /// all of word 0, all of word 1, bits 0..=23 of word 2, bits 1..=9 of word 3 and bits 16..=31
    /// of word 3 are zero. Hands `raw` back if it is not.
    fn try_from(raw: [u32; 4]) -> (r: Result<Self, [u32; 4]>)
        ensures
            r == Self::validate(raw),
            is_event_of(raw@, Type::HostController) ==> r is Ok && r->Ok_0.into_raw() == raw,
            !is_event_of(raw@, Type::HostController) ==> r == Err::<Self, [u32; 4]>(raw),
    {
        proof {
            lemma_reserved_ranges(Type::HostController);
        }
        if conforms_to(&raw, Type::HostController, &HOST_CONTROLLER_RESERVED) {
            Ok(HostController(raw))
        } else {
            Err(raw)
        }
    }
}

impl TryFromSpecImpl<[u32; 4]> for HostController {
    open spec fn obeys_try_from_spec() -> bool {
        true
    }

    open spec fn try_from_spec(raw: [u32; 4]) -> Result<Self, [u32; 4]> {
        Self::validate(raw)
    }
}

impl Default for HostController {
    /// Creates a new Host Controller Event TRB, as `new` does.
    fn default() -> (r: Self)
        ensures
            r.wf(),
            r@ == fresh(Type::HostController),
    {
        Self::new()
    }
}

impl AsRef<[u32]> for HostController {
    /// Returns the four words of the TRB.
    fn as_ref(&self) -> (r: &[u32])
        ensures
            r@ == self@,
    {
        &self.0
    }
}

impl From<HostController> for [u32; 4] {
    /// Returns the wrapped array.
    fn from(t: HostController) -> (r: [u32; 4])
        ensures
            r == t.into_raw(),
    {
        t.0
    }
}

impl FromSpecImpl<HostController> for [u32; 4] {
    open spec fn obeys_from_spec() -> bool {
        true
    }

    open spec fn from_spec(t: HostController) -> [u32; 4] {
        t.into_raw()
    }
}

impl From<HostController> for Allowed {
    /// Wraps the TRB in the variant of its type.
    fn from(v: HostController) -> (r: Allowed)
        ensures
            r == Allowed::HostController(v),
            r.ty() == Type::HostController,
    {
        Allowed::HostController(v)
    }
}

impl FromSpecImpl<HostController> for Allowed {
    open spec fn obeys_from_spec() -> bool {
        true
    }

    open spec fn from_spec(v: HostController) -> Allowed {
        Allowed::HostController(v)
    }
}

/// The ranges that a Device Notification Event TRB reserves.
pub const DEVICE_NOTIFICATION_RESERVED: [ReservedRange; 4] = [
    (0, 0, 7),
    (2, 0, 23),
    (3, 1, 9),
    (3, 16, 31),
];

/// Device Notification Event TRB
///
/// A value of this type is always a valid Device Notification Event TRB: its TRB Type field says
/// so, and the bits that the type reserves are zero.
#[derive(Copy, Clone, Debug, PartialEq, Eq, PartialOrd, Ord, Hash)]
pub struct DeviceNotification([u32; 4]);

impl View for DeviceNotification {
    type V = Seq<u32>;

    /// The four words of the TRB.
    open spec fn view(&self) -> Seq<u32> {
        self.into_raw()@
    }
}

impl DeviceNotification {
    /// The wrapped array.
    pub closed spec fn spec_into_raw(self) -> [u32; 4] {
        self.0
    }

    /// The TRB that wraps `raw`. It is a Device Notification Event TRB only if `raw` is a valid
    /// one.
    pub closed spec fn spec_from_raw(raw: [u32; 4]) -> Self {
        DeviceNotification(raw)
    }

    /// What the validator of this type makes of `raw`: the TRB that wraps `raw` if `raw` is a valid
    /// Device Notification Event TRB, and `raw` itself if it is not.
    pub open spec fn validate(raw: [u32; 4]) -> Result<Self, [u32; 4]> {
        if is_event_of(raw@, Type::DeviceNotification) {
            Ok(Self::spec_from_raw(raw))
        } else {
            Err(raw)
        }
    }

    /// What holds of every Device Notification Event TRB.
    #[verifier::type_invariant]
    pub open spec fn wf(self) -> bool {
        is_event_of(self@, Type::DeviceNotification)
    }

    /// The value of the Cycle Bit.
    pub open spec fn spec_cycle_bit(&self) -> bool {
        cycle_bit_of(self@)
    }

    /// The Completion Code: the code that the Completion Code field stands for, or the field's
    /// value where it stands for none.
    pub open spec fn spec_completion_code(&self) -> Result<CompletionCode, u8> {
        completion_code_of(self@)
    }

    /// The value of the Notification Type field: bits 4..=7 of word 0.
    pub open spec fn spec_notification_type(&self) -> u8 {
        field32(self@[0], 4, 7) as u8
    }

    /// The value of the Device Notification Data field: the 56 bits from bit 8 of word 0 to the
    /// top of word 1. Words 0 and 1 are the low and the high half of a 64-bit value, which is
    /// shifted right by 8.
    pub open spec fn spec_device_notification_data(&self) -> u64 {
        join64(self@[0], self@[1]) >> 8
    }

    /// The value of the Slot ID field: bits 24..=31 of word 3.
    pub open spec fn spec_slot_id(&self) -> u8 {
        field32(self@[3], 24, 31) as u8
    }

    /// The Device Notification Data field in numbers: bits 8..=31 of word 0 are its bits 0..=23,
    /// word 1 is its bits 24..=55, and it has no bit above those.
    pub proof fn lemma_device_notification_data(low: u32, high: u32)
        by (bit_vector)
        ensures
            join64(low, high) >> 8 == high * 0x100_0000 + field32(low, 8, 31),
            join64(low, high) >> 8 == high * 0x100_0000 + low / 0x100,
            join64(low, high) >> 8 <= 0xff_ffff_ffff_ffff,
    {
    }

    /// Wrapping an array and unwrapping a TRB undo each other.
    pub proof fn lemma_spec_from_raw(t: Self, raw: [u32; 4])
        ensures
            Self::spec_from_raw(raw).into_raw() == raw,
            Self::spec_from_raw(t.into_raw()) == t,
    {
    }

    /// Creates a new Device Notification Event TRB.
    ///
    /// This method sets the value of the TRB Type field properly. All the other fields are set to
    /// 0.
    #[must_use]
    pub fn new() -> (r: Self)
        ensures
            r.wf(),
            r@ == fresh(Type::DeviceNotification),
            r@[3] == 0x9800,
            !r.cycle_bit(),
            r.completion_code() == Ok::<CompletionCode, u8>(CompletionCode::Invalid),
            r.notification_type() == 0,
            r.device_notification_data() == 0,
            r.slot_id() == 0,
    {
        let raw: [u32; 4] = fresh_words(Type::DeviceNotification);
        proof {
            lemma_fresh(Type::DeviceNotification);
            lemma_reserved_ranges(Type::DeviceNotification);
            lemma_fresh_conforms(
                Type::DeviceNotification,
                reserved_ranges(Type::DeviceNotification),
            );
            lemma_field32_of_zero(24, 31);
            Self::lemma_device_notification_data(0, 0);
            lemma_field32_of_zero(4, 7);
        }
        DeviceNotification(raw)
    }

    /// Returns the wrapped array.
    #[must_use]
    #[verifier::when_used_as_spec(spec_into_raw)]
    pub fn into_raw(self) -> (r: [u32; 4])
        ensures
            r == self.spec_into_raw(),
            is_event_of(r@, Type::DeviceNotification),
    {
        proof {
            use_type_invariant(&self);
        }
        self.0
    }

    /// Returns the value of the Cycle Bit.
    #[must_use]
    #[verifier::when_used_as_spec(spec_cycle_bit)]
    pub fn cycle_bit(&self) -> (r: bool)
        ensures
            r == self.spec_cycle_bit(),
    {
        get_bit32(self.0[3], 0)
    }

    /// Sets the value of the Cycle Bit.
    ///
    /// No other field changes.
    pub fn set_cycle_bit(&mut self, b: bool) -> (ret: &mut Self)
        ensures
            *final(self) == *final(ret),
            ret.wf(),
            ret@ == with_cycle_bit(old(self)@, b),
            ret.cycle_bit() == b,
            ret.completion_code() == old(self).completion_code(),
            ret.notification_type() == old(self).notification_type(),
            ret.device_notification_data() == old(self).device_notification_data(),
            ret.slot_id() == old(self).slot_id(),
    {
        proof {
            use_type_invariant(&*self);
            lemma_reserved_ranges(Type::DeviceNotification);
            lemma_cycle_bit_is_independent(self@, b);
            lemma_cycle_bit_keeps_conformance(
                self@,
                b,
                Type::DeviceNotification,
                reserved_ranges(Type::DeviceNotification),
            );
        }
        let word: u32 = set_bit32(self.0[3], 0, b);
        self.0[3] = word;
        self
    }

    /// Returns the Completion Code.
    ///
    /// # Errors
    ///
    /// This method returns an [`Err`] value with the Completion Code that is either reserved or not
    /// implemented by this crate.
    #[verifier::when_used_as_spec(spec_completion_code)]
    pub fn completion_code(&self) -> (r: Result<CompletionCode, u8>)
        ensures
            r == self.spec_completion_code(),
    {
        read_completion_code(&self.0)
    }

    /// Returns the value of the Notification Type field.
    #[must_use]
    #[verifier::when_used_as_spec(spec_notification_type)]
    pub fn notification_type(&self) -> (r: u8)
        ensures
            r == self.spec_notification_type(),
            r <= 0xf,
    {
        proof {
            lemma_field_max32(4, 7);
            lemma_field32_bound(self.0[0], 4, 7);
        }
        let bits: u32 = get_bits32(self.0[0], 4, 7);
        bits as u8
    }

    /// Returns the value of the Device Notification Data field.
    #[must_use]
    #[verifier::when_used_as_spec(spec_device_notification_data)]
    pub fn device_notification_data(&self) -> (r: u64)
        ensures
            r == self.spec_device_notification_data(),
            r <= 0xff_ffff_ffff_ffff,
    {
        proof {
            Self::lemma_device_notification_data(self.0[0], self.0[1]);
        }
        let l: u64 = self.0[0] as u64;
        let u: u64 = self.0[1] as u64;

        ((u << 32) | l) >> 8
    }

    /// Returns the value of the Slot ID field.
    #[must_use]
    #[verifier::when_used_as_spec(spec_slot_id)]
    pub fn slot_id(&self) -> (r: u8)
        ensures
            r == self.spec_slot_id(),
    {
        proof {
            lemma_field_max32(24, 31);
            lemma_field32_bound(self.0[3], 24, 31);
        }
        let bits: u32 = get_bits32(self.0[3], 24, 31);
        bits as u8
    }
}

impl TryFrom<[u32; 4]> for DeviceNotification {
    type Error = [u32; 4];

    /// Wraps `raw` if it is a valid Device Notification Event TRB: if its TRB Type field says so
    /// and bits 0..=7 of word 0, bits 0..=23 of word 2, bits 1..=9 of word 3 and bits 16..=31 of
    /// word 3 are zero. Hands `raw` back if it is not.
    fn try_from(raw: [u32; 4]) -> (r: Result<Self, [u32; 4]>)
        ensures
            r == Self::validate(raw),
            is_event_of(raw@, Type::DeviceNotification) ==> r is Ok && r->Ok_0.into_raw() == raw,
            !is_event_of(raw@, Type::DeviceNotification) ==> r == Err::<Self, [u32; 4]>(raw),
    {
        proof {
            lemma_reserved_ranges(Type::DeviceNotification);
        }
        if conforms_to(&raw, Type::DeviceNotification, &DEVICE_NOTIFICATION_RESERVED) {
            Ok(DeviceNotification(raw))
        } else {
            Err(raw)
        }
    }
}

impl TryFromSpecImpl<[u32; 4]> for DeviceNotification {
    open spec fn obeys_try_from_spec() -> bool {
        true
    }

    open spec fn try_from_spec(raw: [u32; 4]) -> Result<Self, [u32; 4]> {
        Self::validate(raw)
    }
}

impl Default for DeviceNotification {
    /// Creates a new Device Notification Event TRB, as `new` does.
    fn default() -> (r: Self)
        ensures
            r.wf(),
            r@ == fresh(Type::DeviceNotification),
    {
        Self::new()
    }
}

impl AsRef<[u32]> for DeviceNotification {
    /// Returns the four words of the TRB.
    fn as_ref(&self) -> (r: &[u32])
        ensures
            r@ == self@,
    {
        &self.0
    }
}

impl From<DeviceNotification> for [u32; 4] {
    /// Returns the wrapped array.
    fn from(t: DeviceNotification) -> (r: [u32; 4])
        ensures
            r == t.into_raw(),
    {
        t.0
    }
}

impl FromSpecImpl<DeviceNotification> for [u32; 4] {
    open spec fn obeys_from_spec() -> bool {
        true
    }

    open spec fn from_spec(t: DeviceNotification) -> [u32; 4] {
        t.into_raw()
    }
}

impl From<DeviceNotification> for Allowed {
    /// Wraps the TRB in the variant of its type.
    fn from(v: DeviceNotification) -> (r: Allowed)
        ensures
            r == Allowed::DeviceNotification(v),
            r.ty() == Type::DeviceNotification,
    {
        Allowed::DeviceNotification(v)
    }
}

impl FromSpecImpl<DeviceNotification> for Allowed {
    open spec fn obeys_from_spec() -> bool {
        true
    }

    open spec fn from_spec(v: DeviceNotification) -> Allowed {
        Allowed::DeviceNotification(v)
    }
}

/// The ranges that a MFINDEX Wrap Event TRB reserves.
pub const MFINDEX_WRAP_RESERVED: [ReservedRange; 4] = [
    (0, 0, 3),
    (2, 0, 23),
    (3, 1, 9),
    (3, 16, 23),
];

/// MFINDEX Wrap Event TRB
///
/// A value of this type is always a valid MFINDEX Wrap Event TRB: its TRB Type field says so, and
/// the bits that the type reserves are zero.
#[derive(Copy, Clone, Debug, PartialEq, Eq, PartialOrd, Ord, Hash)]
pub struct MfindexWrap([u32; 4]);

impl View for MfindexWrap {
    type V = Seq<u32>;

    /// The four words of the TRB.
    open spec fn view(&self) -> Seq<u32> {
        self.into_raw()@
    }
}

impl MfindexWrap {
    /// The wrapped array.
    pub closed spec fn spec_into_raw(self) -> [u32; 4] {
        self.0
    }

    /// The TRB that wraps `raw`. It is a MFINDEX Wrap Event TRB only if `raw` is a valid one.
    pub closed spec fn spec_from_raw(raw: [u32; 4]) -> Self {
        MfindexWrap(raw)
    }

    /// What the validator of this type makes of `raw`: the TRB that wraps `raw` if `raw` is a valid
    /// MFINDEX Wrap Event TRB, and `raw` itself if it is not.
    pub open spec fn validate(raw: [u32; 4]) -> Result<Self, [u32; 4]> {
        if is_event_of(raw@, Type::MfindexWrap) {
            Ok(Self::spec_from_raw(raw))
        } else {
            Err(raw)
        }
    }

    /// What holds of every MFINDEX Wrap Event TRB.
    #[verifier::type_invariant]
    pub open spec fn wf(self) -> bool {
        is_event_of(self@, Type::MfindexWrap)
    }

    /// The value of the Cycle Bit.
    pub open spec fn spec_cycle_bit(&self) -> bool {
        cycle_bit_of(self@)
    }

    /// The Completion Code: the code that the Completion Code field stands for, or the field's
    /// value where it stands for none.
    pub open spec fn spec_completion_code(&self) -> Result<CompletionCode, u8> {
        completion_code_of(self@)
    }


    /// Wrapping an array and unwrapping a TRB undo each other.
    pub proof fn lemma_spec_from_raw(t: Self, raw: [u32; 4])
        ensures
            Self::spec_from_raw(raw).into_raw() == raw,
            Self::spec_from_raw(t.into_raw()) == t,
    {
    }

    /// Creates a new MFINDEX Wrap Event TRB.
    ///
    /// This method sets the value of the TRB Type field properly. All the other fields are set to
    /// 0.
    #[must_use]
    pub fn new() -> (r: Self)
        ensures
            r.wf(),
            r@ == fresh(Type::MfindexWrap),
            r@[3] == 0x9c00,
            !r.cycle_bit(),
            r.completion_code() == Ok::<CompletionCode, u8>(CompletionCode::Invalid),
    {
        let raw: [u32; 4] = fresh_words(Type::MfindexWrap);
        proof {
            lemma_fresh(Type::MfindexWrap);
            lemma_reserved_ranges(Type::MfindexWrap);
            lemma_fresh_conforms(Type::MfindexWrap, reserved_ranges(Type::MfindexWrap));
            lemma_field32_of_zero(24, 31);
        }
        MfindexWrap(raw)
    }

    /// Returns the wrapped array.
    #[must_use]
    #[verifier::when_used_as_spec(spec_into_raw)]
    pub fn into_raw(self) -> (r: [u32; 4])
        ensures
            r == self.spec_into_raw(),
            is_event_of(r@, Type::MfindexWrap),
    {
        proof {
            use_type_invariant(&self);
        }
        self.0
    }

    /// Returns the value of the Cycle Bit.
    #[must_use]
    #[verifier::when_used_as_spec(spec_cycle_bit)]
    pub fn cycle_bit(&self) -> (r: bool)
        ensures
            r == self.spec_cycle_bit(),
    {
        get_bit32(self.0[3], 0)
    }

    /// Sets the value of the Cycle Bit.
    ///
    /// No other field changes.
    pub fn set_cycle_bit(&mut self, b: bool) -> (ret: &mut Self)
        ensures
            *final(self) == *final(ret),
            ret.wf(),
            ret@ == with_cycle_bit(old(self)@, b),
            ret.cycle_bit() == b,
            ret.completion_code() == old(self).completion_code(),
    {
        proof {
            use_type_invariant(&*self);
            lemma_reserved_ranges(Type::MfindexWrap);
            lemma_cycle_bit_is_independent(self@, b);
            lemma_cycle_bit_keeps_conformance(
                self@,
                b,
                Type::MfindexWrap,
                reserved_ranges(Type::MfindexWrap),
            );
        }
        let word: u32 = set_bit32(self.0[3], 0, b);
        self.0[3] = word;
        self
    }

    /// Returns the Completion Code.
    ///
    /// # Errors
    ///
    /// This method returns an [`Err`] value with the Completion Code that is either reserved or not
    /// implemented by this crate.
    #[verifier::when_used_as_spec(spec_completion_code)]
    pub fn completion_code(&self) -> (r: Result<CompletionCode, u8>)
        ensures
            r == self.spec_completion_code(),
    {
        read_completion_code(&self.0)
    }

}

impl TryFrom<[u32; 4]> for MfindexWrap {
    type Error = [u32; 4];

    /// Wraps `raw` if it is a valid MFINDEX Wrap Event TRB: if its TRB Type field says so and bits
    /// 0..=3 of word 0, bits 0..=23 of word 2, bits 1..=9 of word 3 and bits 16..=23 of word 3 are
    /// zero. Hands `raw` back if it is not.
    fn try_from(raw: [u32; 4]) -> (r: Result<Self, [u32; 4]>)
        ensures
            r == Self::validate(raw),
            is_event_of(raw@, Type::MfindexWrap) ==> r is Ok && r->Ok_0.into_raw() == raw,
            !is_event_of(raw@, Type::MfindexWrap) ==> r == Err::<Self, [u32; 4]>(raw),
    {
        proof {
            lemma_reserved_ranges(Type::MfindexWrap);
        }
        if conforms_to(&raw, Type::MfindexWrap, &MFINDEX_WRAP_RESERVED) {
            Ok(MfindexWrap(raw))
        } else {
            Err(raw)
        }
    }
}

impl TryFromSpecImpl<[u32; 4]> for MfindexWrap {
    open spec fn obeys_try_from_spec() -> bool {
        true
    }

    open spec fn try_from_spec(raw: [u32; 4]) -> Result<Self, [u32; 4]> {
        Self::validate(raw)
    }
}

impl Default for MfindexWrap {
    /// Creates a new MFINDEX Wrap Event TRB, as `new` does.
    fn default() -> (r: Self)
        ensures
            r.wf(),
            r@ == fresh(Type::MfindexWrap),
    {
        Self::new()
    }
}

impl AsRef<[u32]> for MfindexWrap {
    /// Returns the four words of the TRB.
    fn as_ref(&self) -> (r: &[u32])
        ensures
            r@ == self@,
    {
        &self.0
    }
}

impl From<MfindexWrap> for [u32; 4] {
    /// Returns the wrapped array.
    fn from(t: MfindexWrap) -> (r: [u32; 4])
        ensures
            r == t.into_raw(),
    {
        t.0
    }
}

impl FromSpecImpl<MfindexWrap> for [u32; 4] {
    open spec fn obeys_from_spec() -> bool {
        true
    }

    open spec fn from_spec(t: MfindexWrap) -> [u32; 4] {
        t.into_raw()
    }
}

impl From<MfindexWrap> for Allowed {
    /// Wraps the TRB in the variant of its type.
    fn from(v: MfindexWrap) -> (r: Allowed)
        ensures
            r == Allowed::MfindexWrap(v),
            r.ty() == Type::MfindexWrap,
    {
        Allowed::MfindexWrap(v)
    }
}

impl FromSpecImpl<MfindexWrap> for Allowed {
    open spec fn obeys_from_spec() -> bool {
        true
    }

    open spec fn from_spec(v: MfindexWrap) -> Allowed {
        Allowed::MfindexWrap(v)
    }
}

/// The TRB Completion Codes.
///
/// The description of each error is quoted from eXtensible Host Controller Interface for Universal
/// Serial Bus (xHCI) Requirements Specification May 2019 Revision 1.2, Section 6.4.5, Table 6-90.
/// Refer to this specification for more detail.
#[derive(Copy, Clone, Debug, PartialEq, Eq, Structural, PartialOrd, Ord, Hash)]
pub enum CompletionCode {
    /// Indicates that the Completion Code field has not been updated by the TRB producer.
    Invalid,
    /// Indicates successful completion of the TRB operation.
    Success,
    /// Indicates that the Host Controller is unable to keep up the reception of incoming data
    /// (overrun) or is unable to supply data fast enough during transmission (underrun).
    DataBufferError,
    /// Asserted when "babbling" is detected during the transaction generated by this TRB.
    BabbleDetectedError,
    /// Asserted in the case where the host did not receive a valid response from the device.
    UsbTransactionError,
    /// Asserted when a TRB parameter error condition is detected in a TRB.
    TrbError,
    /// Asserted when a Stall condition is detected for a TRB.
    StallError,
    /// Asserted by a Configure Endpoint Command or an Address Device Command if there are not
    /// adequate xHC resources available to successfully complete the command.
    ResourceError,
    /// Asserted by a Configure Endpoint Command if periodic endpoints are declared and the xHC is
    /// not able to allocate the required Bandwidth.
    BandwidthError,
    /// Asserted if a adding one more device would result in the host controller to exceed the
    /// maximum Number of Device Slots for this implementation.
    NoSlotsAvailableError,
    /// Asserted if an invalid Stream Context Type value is detected.
    InvalidStreamTypeError,
    /// Asserted if a command is issued to a Device Slot that is in the Disabled state.
    SlotNotEnabledError,
    /// Asserted if a doorbell is rung for an endpoint that is in the Disabled state.
    EndpointNotEnabledError,
    /// Asserted if the number of bytes received was less than the TD Transfer Size.
    ShortPacket,
    /// Asserted in a Transfer Event TRB if the Transfer Ring is empty when an enabled Isoch
    /// endpoint is scheduled to transmit data.
    RingUnderrun,
    /// Asserted in a Transfer Event TRB if the Transfer Ring is empty when an enabled Isoch
    /// endpoint is scheduled to receive data.
    RingOverrun,
    /// Asserted by a Force Event command if the target VF's Event Ring is full.
    VfEventRingFullError,
    /// Asserted by a command if a Context parameter is invalid.
    ParameterError,
    /// Asserted during an Isoch transfer if the TD exceeds the bandwidth allocated to the endpoint.
    BandwidthOverrunError,
    /// Asserted if a command is issued to transition from an illegal context state.
    ContextStateError,
    /// Asserted if the xHC was unable to complete a periodic data transfer associated within the
    /// ESIT, because it did not receive a PING_RESPONSE in time.
    NoPingResponseError,
    /// Asserted if the Event Ring is full, the xHC is unable to post an Event to the ring.
    EventRingFullError,
    /// Asserted if the xHC detects a problem with a device that does not allow it to be
    /// successfully accessed.
    IncompatibleDeviceError,
    /// Asserted if the xHC was unable to service a Isochronous endpoint within the Interval time.
    MissedServiceError,
    /// Asserted in a Command Completion Event due to a Command Stop operation.
    CommandRingStopped,
    /// Asserted in a Command Completion Event of an aborted command if the command was terminated
    /// by a Command Abort (CA) operation.
    CommandAborted,
    /// Asserted in a Transfer Event if the transfer was terminated by a Stop Endpoint Command.
    Stopped,
    /// Asserted in a Transfer Event if the transfer was terminated by a Stop Endpoint Command and
    /// the Transfer Event TRB Transfer Length field is invalid.
    StoppedLengthInvalid,
    /// Asserted in a Transfer Event if the transfer was terminated by a Stop Endpoint Command, and
    /// the transfer was stopped after Short Packet conditions were met, but before the end of the
    /// TD was reached.
    StoppedShortPacket,
    /// Asserted by the Evaluate Context Command if the proposed Max Exit Latency would not allow
    /// the periodic endpoints of the Device Slot to be scheduled.
    MaxExitLatencyTooLargeError,
    /// Asserted if the data buffer defined by an Isoch TD on an IN endpoint is less than the Max
    /// ESIT Payload in size and the device attempts to send more data than it can hold.
    IsochBufferOverrun,
    /// Asserted if the xHC internal event overrun condition.
    EventLostError,
    /// May be reported by an event when other error codes do not apply.
    UndefinedError,
    /// Asserted if an invalid Stream ID is received.
    InvalidStreamIdError,
    /// Asserted by a Configure Endpoint Command if periodic endpoints are declared and the xHC is
    /// not able to allocate the required Bandwidth due to a Secondary Bandwidth Domain.
    SecondaryBandwidthError,
    /// Asserted if an error is detected on a USB2 protocol endpoint for a split transaction.
    SplitTransactionError,
}

impl CompletionCode {
    /// The number that stands for the code in the Completion Code field. No code has the number 30.
    pub open spec fn spec_value(self) -> u8 {
        match self {
            CompletionCode::Invalid => 0,
            CompletionCode::Success => 1,
            CompletionCode::DataBufferError => 2,
            CompletionCode::BabbleDetectedError => 3,
            CompletionCode::UsbTransactionError => 4,
            CompletionCode::TrbError => 5,
            CompletionCode::StallError => 6,
            CompletionCode::ResourceError => 7,
            CompletionCode::BandwidthError => 8,
            CompletionCode::NoSlotsAvailableError => 9,
            CompletionCode::InvalidStreamTypeError => 10,
            CompletionCode::SlotNotEnabledError => 11,
            CompletionCode::EndpointNotEnabledError => 12,
            CompletionCode::ShortPacket => 13,
            CompletionCode::RingUnderrun => 14,
            CompletionCode::RingOverrun => 15,
            CompletionCode::VfEventRingFullError => 16,
            CompletionCode::ParameterError => 17,
            CompletionCode::BandwidthOverrunError => 18,
            CompletionCode::ContextStateError => 19,
            CompletionCode::NoPingResponseError => 20,
            CompletionCode::EventRingFullError => 21,
            CompletionCode::IncompatibleDeviceError => 22,
            CompletionCode::MissedServiceError => 23,
            CompletionCode::CommandRingStopped => 24,
            CompletionCode::CommandAborted => 25,
            CompletionCode::Stopped => 26,
            CompletionCode::StoppedLengthInvalid => 27,
            CompletionCode::StoppedShortPacket => 28,
            CompletionCode::MaxExitLatencyTooLargeError => 29,
            CompletionCode::IsochBufferOverrun => 31,
            CompletionCode::EventLostError => 32,
            CompletionCode::UndefinedError => 33,
            CompletionCode::InvalidStreamIdError => 34,
            CompletionCode::SecondaryBandwidthError => 35,
            CompletionCode::SplitTransactionError => 36,
        }
    }

    /// The code that `n` stands for, if there is one.
    pub open spec fn spec_from_u8(n: u8) -> Option<CompletionCode> {
        match n {
            0 => Some(CompletionCode::Invalid),
            1 => Some(CompletionCode::Success),
            2 => Some(CompletionCode::DataBufferError),
            3 => Some(CompletionCode::BabbleDetectedError),
            4 => Some(CompletionCode::UsbTransactionError),
            5 => Some(CompletionCode::TrbError),
            6 => Some(CompletionCode::StallError),
            7 => Some(CompletionCode::ResourceError),
            8 => Some(CompletionCode::BandwidthError),
            9 => Some(CompletionCode::NoSlotsAvailableError),
            10 => Some(CompletionCode::InvalidStreamTypeError),
            11 => Some(CompletionCode::SlotNotEnabledError),
            12 => Some(CompletionCode::EndpointNotEnabledError),
            13 => Some(CompletionCode::ShortPacket),
            14 => Some(CompletionCode::RingUnderrun),
            15 => Some(CompletionCode::RingOverrun),
            16 => Some(CompletionCode::VfEventRingFullError),
            17 => Some(CompletionCode::ParameterError),
            18 => Some(CompletionCode::BandwidthOverrunError),
            19 => Some(CompletionCode::ContextStateError),
            20 => Some(CompletionCode::NoPingResponseError),
            21 => Some(CompletionCode::EventRingFullError),
            22 => Some(CompletionCode::IncompatibleDeviceError),
            23 => Some(CompletionCode::MissedServiceError),
            24 => Some(CompletionCode::CommandRingStopped),
            25 => Some(CompletionCode::CommandAborted),
            26 => Some(CompletionCode::Stopped),
            27 => Some(CompletionCode::StoppedLengthInvalid),
            28 => Some(CompletionCode::StoppedShortPacket),
            29 => Some(CompletionCode::MaxExitLatencyTooLargeError),
            31 => Some(CompletionCode::IsochBufferOverrun),
            32 => Some(CompletionCode::EventLostError),
            33 => Some(CompletionCode::UndefinedError),
            34 => Some(CompletionCode::InvalidStreamIdError),
            35 => Some(CompletionCode::SecondaryBandwidthError),
            36 => Some(CompletionCode::SplitTransactionError),
            _ => None,
        }
    }

    /// Returns the number that stands for the code in the Completion Code field.
    #[verifier::when_used_as_spec(spec_value)]
    pub fn value(self) -> (r: u8)
        ensures
            r == self.spec_value(),
    {
        match self {
            CompletionCode::Invalid => 0,
            CompletionCode::Success => 1,
            CompletionCode::DataBufferError => 2,
            CompletionCode::BabbleDetectedError => 3,
            CompletionCode::UsbTransactionError => 4,
            CompletionCode::TrbError => 5,
            CompletionCode::StallError => 6,
            CompletionCode::ResourceError => 7,
            CompletionCode::BandwidthError => 8,
            CompletionCode::NoSlotsAvailableError => 9,
            CompletionCode::InvalidStreamTypeError => 10,
            CompletionCode::SlotNotEnabledError => 11,
            CompletionCode::EndpointNotEnabledError => 12,
            CompletionCode::ShortPacket => 13,
            CompletionCode::RingUnderrun => 14,
            CompletionCode::RingOverrun => 15,
            CompletionCode::VfEventRingFullError => 16,
            CompletionCode::ParameterError => 17,
            CompletionCode::BandwidthOverrunError => 18,
            CompletionCode::ContextStateError => 19,
            CompletionCode::NoPingResponseError => 20,
            CompletionCode::EventRingFullError => 21,
            CompletionCode::IncompatibleDeviceError => 22,
            CompletionCode::MissedServiceError => 23,
            CompletionCode::CommandRingStopped => 24,
            CompletionCode::CommandAborted => 25,
            CompletionCode::Stopped => 26,
            CompletionCode::StoppedLengthInvalid => 27,
            CompletionCode::StoppedShortPacket => 28,
            CompletionCode::MaxExitLatencyTooLargeError => 29,
            CompletionCode::IsochBufferOverrun => 31,
            CompletionCode::EventLostError => 32,
            CompletionCode::UndefinedError => 33,
            CompletionCode::InvalidStreamIdError => 34,
            CompletionCode::SecondaryBandwidthError => 35,
            CompletionCode::SplitTransactionError => 36,
        }
    }

    /// Returns the code that `n` stands for, if there is one.
    #[verifier::when_used_as_spec(spec_from_u8)]
    pub fn from_u8(n: u8) -> (r: Option<CompletionCode>)
        ensures
            r == Self::spec_from_u8(n),
    {
        match n {
            0 => Some(CompletionCode::Invalid),
            1 => Some(CompletionCode::Success),
            2 => Some(CompletionCode::DataBufferError),
            3 => Some(CompletionCode::BabbleDetectedError),
            4 => Some(CompletionCode::UsbTransactionError),
            5 => Some(CompletionCode::TrbError),
            6 => Some(CompletionCode::StallError),
            7 => Some(CompletionCode::ResourceError),
            8 => Some(CompletionCode::BandwidthError),
            9 => Some(CompletionCode::NoSlotsAvailableError),
            10 => Some(CompletionCode::InvalidStreamTypeError),
            11 => Some(CompletionCode::SlotNotEnabledError),
            12 => Some(CompletionCode::EndpointNotEnabledError),
            13 => Some(CompletionCode::ShortPacket),
            14 => Some(CompletionCode::RingUnderrun),
            15 => Some(CompletionCode::RingOverrun),
            16 => Some(CompletionCode::VfEventRingFullError),
            17 => Some(CompletionCode::ParameterError),
            18 => Some(CompletionCode::BandwidthOverrunError),
            19 => Some(CompletionCode::ContextStateError),
            20 => Some(CompletionCode::NoPingResponseError),
            21 => Some(CompletionCode::EventRingFullError),
            22 => Some(CompletionCode::IncompatibleDeviceError),
            23 => Some(CompletionCode::MissedServiceError),
            24 => Some(CompletionCode::CommandRingStopped),
            25 => Some(CompletionCode::CommandAborted),
            26 => Some(CompletionCode::Stopped),
            27 => Some(CompletionCode::StoppedLengthInvalid),
            28 => Some(CompletionCode::StoppedShortPacket),
            29 => Some(CompletionCode::MaxExitLatencyTooLargeError),
            31 => Some(CompletionCode::IsochBufferOverrun),
            32 => Some(CompletionCode::EventLostError),
            33 => Some(CompletionCode::UndefinedError),
            34 => Some(CompletionCode::InvalidStreamIdError),
            35 => Some(CompletionCode::SecondaryBandwidthError),
            36 => Some(CompletionCode::SplitTransactionError),
            _ => None,
        }
    }

    /// `from_u8` undoes `value`, and finds a code for a number exactly if some code has that
    /// number.
    pub proof fn lemma_from_u8_inverts_value(n: u8, code: CompletionCode)
        ensures
            Self::from_u8(n) == Some(code) <==> code.value() == n,
            Self::from_u8(code.value()) == Some(code),
            Self::from_u8(n) is None <==> forall|c: CompletionCode| #[trigger] c.value() != n,
    {
        if Self::from_u8(n) is Some {
            let c = Self::from_u8(n)->Some_0;
            assert(c.value() == n);
        }
    }
}

/// No TRB is a valid Event TRB of two types: at most one of the eight validators accepts it.
pub proof fn lemma_event_types_are_disjoint(raw: Seq<u32>, a: Type, b: Type)
    requires
        is_event_of(raw, a),
        is_event_of(raw, b),
    ensures
        a == b,
{
    Type::lemma_value_is_injective(a, b);
}

/// A fresh TRB of a type of Event TRBs is a valid Event TRB of that type and of no other: what
/// `new` of one type returns, the validator of every other type rejects.
pub proof fn lemma_fresh_is_of_its_type_only(a: Type, b: Type)
    requires
        is_event(a),
    ensures
        is_event_of(fresh(a), b) <==> a == b,
{
    lemma_fresh(a);
    lemma_reserved_ranges(a);
    lemma_fresh_conforms(a, reserved_ranges(a));
    if is_event_of(fresh(a), b) {
        lemma_event_types_are_disjoint(fresh(a), a, b);
    }
}

/// What classification returns: a TRB that wraps `raw` and whose type is the one type that `raw` is
/// valid for, or `raw` itself if it is valid for none.
pub proof fn lemma_classification(raw: [u32; 4])
    ensures
        match Allowed::classify(raw) {
            Ok(a) => a.into_raw() == raw && a.wf(),
            Err(e) => e == raw && forall|ty: Type| !is_event_of(raw@, ty),
        },
{
}

/// Classifying the words of an Event TRB gives that TRB again, whether the TRB is known by its own
/// type or as one of the `Allowed`.
pub proof fn lemma_round_trip(a: Allowed)
    requires
        a.wf(),
    ensures
        Allowed::classify(a.into_raw()) == Ok::<Allowed, [u32; 4]>(a),
        match a {
            Allowed::TransferEvent(t) => TransferEvent::validate(t.into_raw()) == Ok::<
                TransferEvent,
                [u32; 4],
            >(t),
            Allowed::CommandCompletion(t) => CommandCompletion::validate(t.into_raw()) == Ok::<
                CommandCompletion,
                [u32; 4],
            >(t),
            Allowed::PortStatusChange(t) => PortStatusChange::validate(t.into_raw()) == Ok::<
                PortStatusChange,
                [u32; 4],
            >(t),
            Allowed::BandwidthRequest(t) => BandwidthRequest::validate(t.into_raw()) == Ok::<
                BandwidthRequest,
                [u32; 4],
            >(t),
            Allowed::Doorbell(t) => Doorbell::validate(t.into_raw()) == Ok::<
                Doorbell,
                [u32; 4],
            >(t),
            Allowed::HostController(t) => HostController::validate(t.into_raw()) == Ok::<
                HostController,
                [u32; 4],
            >(t),
            Allowed::DeviceNotification(t) => DeviceNotification::validate(t.into_raw())
                == Ok::<DeviceNotification, [u32; 4]>(t),
            Allowed::MfindexWrap(t) => MfindexWrap::validate(t.into_raw()) == Ok::<
                MfindexWrap,
                [u32; 4],
            >(t),
        },
{
    let raw = a.into_raw();
    assert forall|ty: Type| is_event_of(raw@, ty) implies ty == a.ty() by {
        lemma_event_types_are_disjoint(raw@, ty, a.ty());
    }
}

/// `raw` after the Cycle bit was written once for each element of `bits`, in their order.
pub open spec fn after_cycle_bits(raw: Seq<u32>, bits: Seq<bool>) -> Seq<u32>
    decreases bits.len(),
{
    if bits.len() == 0 {
        raw
    } else {
        with_cycle_bit(after_cycle_bits(raw, bits.drop_last()), bits.last())
    }
}

/// What `new` of a type of Event TRBs returns is, after any sequence of calls of the one setter
/// that Event TRBs have, still a valid Event TRB of that type, which classification gives back
/// as it is.
pub proof fn lemma_round_trip_after_setters(ty: Type, bits: Seq<bool>, raw: [u32; 4])
    requires
        is_event(ty),
        raw@ == after_cycle_bits(fresh(ty), bits),
    ensures
        is_event_of(raw@, ty),
        Allowed::classify(raw) is Ok,
        Allowed::classify(raw)->Ok_0.ty() == ty,
        Allowed::classify(raw)->Ok_0.into_raw() == raw,
{
    lemma_setters_keep_validity(ty, bits);
    lemma_classification(raw);
    lemma_event_types_are_disjoint(raw@, ty, Allowed::classify(raw)->Ok_0.ty());
}

/// Writing the Cycle bit any number of times leaves a fresh Event TRB valid.
proof fn lemma_setters_keep_validity(ty: Type, bits: Seq<bool>)
    requires
        is_event(ty),
    ensures
        is_event_of(after_cycle_bits(fresh(ty), bits), ty),
    decreases bits.len(),
{
    lemma_reserved_ranges(ty);
    if bits.len() == 0 {
        lemma_fresh_conforms(ty, reserved_ranges(ty));
    } else {
        lemma_setters_keep_validity(ty, bits.drop_last());
        lemma_cycle_bit_keeps_conformance(
            after_cycle_bits(fresh(ty), bits.drop_last()),
            bits.last(),
            ty,
            reserved_ranges(ty),
        );
    }
}

/// A TRB with a reserved bit set is no valid Event TRB: if `dirty` is a valid Event TRB of type
/// `ty` but for one bit that is set in a range that `ty` reserves, classification fails and hands
/// `dirty` back.
pub proof fn lemma_reserved_bit_is_rejected(
    raw: [u32; 4],
    ty: Type,
    k: int,
    bit: u32,
    dirty: [u32; 4],
)
    requires
        is_event_of(raw@, ty),
        0 <= k < reserved_ranges(ty).len(),
        reserved_ranges(ty)[k].1 <= bit <= reserved_ranges(ty)[k].2,
        dirty@ == raw@.update(
            reserved_ranges(ty)[k].0 as int,
            with_bit32(raw[reserved_ranges(ty)[k].0 as int], bit, true),
        ),
    ensures
        forall|other: Type| !is_event_of(dirty@, other),
        Allowed::classify(dirty) == Err::<Allowed, [u32; 4]>(dirty),
{
    lemma_reserved_ranges(ty);
    let range = reserved_ranges(ty)[k];
    assert(well_formed(range));
    let word = raw[range.0 as int];
    lemma_with_bit32(word, bit, true, bit);
    lemma_field32_nonzero(with_bit32(word, bit, true), range.1, range.2, bit);
    assert(!is_clear(range, dirty@));
    if range.0 == 3 {
        lemma_with_bit32_field(word, bit, true, 10, 15);
    }
    assert(type_field(dirty@) == type_field(raw@));
    assert forall|other: Type| !is_event_of(dirty@, other) by {
        if is_event_of(dirty@, other) {
            Type::lemma_value_is_injective(ty, other);
        }
    }
}

/// Writing the Cycle bit does not change how a TRB is classified: it is a valid Event TRB of the
/// same types as before, so classification fails as before or gives a TRB of the same type, with
/// the Cycle bit written and every other bit as before.
pub proof fn lemma_cycle_bit_keeps_classification(raw: [u32; 4], b: bool, after: [u32; 4])
    requires
        after@ == with_cycle_bit(raw@, b),
    ensures
        forall|ty: Type| is_event_of(after@, ty) == is_event_of(raw@, ty),
        match (Allowed::classify(raw), Allowed::classify(after)) {
            (Ok(x), Ok(y)) => x.ty() == y.ty() && y@ == with_cycle_bit(x@, b),
            (Err(e), Err(f)) => e == raw && f == after,
            _ => false,
        },
{
    assert forall|ty: Type| is_event_of(after@, ty) == is_event_of(raw@, ty) by {
        lemma_reserved_ranges(ty);
        lemma_cycle_bit_keeps_conformance(raw@, b, ty, reserved_ranges(ty));
    }
    lemma_classification(raw);
    lemma_classification(after);
    if Allowed::classify(raw) is Ok && Allowed::classify(after) is Ok {
        let x = Allowed::classify(raw)->Ok_0;
        let y = Allowed::classify(after)->Ok_0;
        lemma_event_types_are_disjoint(raw@, x.ty(), y.ty());
    }
}

} // verus!
