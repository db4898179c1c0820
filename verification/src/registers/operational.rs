//! Host Controller Operational Registers
//!
//! The types of this module are the values of the registers: what was read from a register, or what
//! is to be written to it. Each one wraps the 32 or 64 bits of its register and names the fields in
//! them. [`OperationalAddresses`] and [`PortRegisterSet::base`] say where the registers lie.

use crate::bits::{
    bit32, bit64, field32, field64, field_max64, get_bit32, get_bit64, get_bits32,
    lemma_field32_bound, lemma_field_max32, lemma_with_bit32_field, lemma_with_bit32_only,
    lemma_with_bit64_field, lemma_with_bit64_only, lemma_with_field32_bit, lemma_with_field32_same,
    lemma_with_field64_bit, lemma_with_field64_same, set_bit32, set_bit64, set_bits32, set_bits64,
    with_bit32, with_bit64, with_field32, with_field64,
};
use vstd::prelude::*;

verus! {

/// The addresses of the six Host Controller Operational Registers.
///
/// The registers start where the Capability Registers end, each at its own offset from there.
#[derive(Copy, Clone, Debug, PartialEq, Eq, Structural)]
pub struct OperationalAddresses {
    /// The address of the USB Command Register, at offset 0x00
    pub usbcmd: usize,
    /// The address of the USB Status Register, at offset 0x04
    pub usbsts: usize,
    /// The address of the Page Size Register, at offset 0x08
    pub pagesize: usize,
    /// The address of the Command Ring Control Register, at offset 0x18
    pub crcr: usize,
    /// The address of the Device Context Base Address Array Pointer Register, at offset 0x30
    pub dcbaap: usize,
    /// The address of the Configure Register, at offset 0x38
    pub config: usize,
}

impl OperationalAddresses {
    /// The addresses of the registers of a controller whose registers start at `mmio_base` and
    /// whose Capability Registers are `caplength` bytes long, if the last of them lies in the
    /// address space.
    pub open spec fn of(mmio_base: usize, caplength: u8) -> Option<OperationalAddresses> {
        let base = mmio_base + caplength;
        if base + 0x38 <= usize::MAX {
            Some(
                OperationalAddresses {
                    usbcmd: base as usize,
                    usbsts: (base + 0x04) as usize,
                    pagesize: (base + 0x08) as usize,
                    crcr: (base + 0x18) as usize,
                    dcbaap: (base + 0x30) as usize,
                    config: (base + 0x38) as usize,
                },
            )
        } else {
            None
        }
    }

    /// Returns the addresses of the registers of a controller whose registers start at
    /// `mmio_base` and whose Capability Registers are `caplength` bytes long, or `None` if the
    /// Configure Register, which is the last of them, would start beyond the address space.
    #[must_use]
    pub fn new(mmio_base: usize, caplength: u8) -> (r: Option<Self>)
        ensures
            r == Self::of(mmio_base, caplength),
            r is Some <==> mmio_base + caplength + 0x38 <= usize::MAX,
    {
        let base: usize = match mmio_base.checked_add(caplength as usize) {
            Some(base) => base,
            None => {
                return None;
            },
        };
        match base.checked_add(0x38) {
            Some(config) => Some(
                OperationalAddresses {
                    usbcmd: base,
                    usbsts: base + 0x04,
                    pagesize: base + 0x08,
                    crcr: base + 0x18,
                    dcbaap: base + 0x30,
                    config,
                },
            ),
            None => None,
        }
    }
}

/// USB Command Register
#[derive(Copy, Clone, Debug)]
pub struct UsbCommandRegister(u32);

impl View for UsbCommandRegister {
    type V = u32;

    /// The value of the register.
    closed spec fn view(&self) -> u32 {
        self.0
    }
}

impl UsbCommandRegister {
    /// Wraps a value read from the USB Command Register.
    #[must_use]
    pub fn from_raw(raw: u32) -> (r: Self)
        ensures
            r@ == raw,
    {
        UsbCommandRegister(raw)
    }

    /// Returns the value to write to the USB Command Register.
    #[must_use]
    pub fn into_raw(self) -> (r: u32)
        ensures
            r == self@,
    {
        self.0
    }

    /// The value of the Run/Stop bit: bit 0.
    pub open spec fn spec_run_stop(self) -> bool {
        bit32(self@, 0)
    }

    /// The value of the Host Controller Reset bit: bit 1.
    pub open spec fn spec_host_controller_reset(self) -> bool {
        bit32(self@, 1)
    }

    /// The value of the Interrupter Enable bit: bit 2.
    pub open spec fn spec_interrupter_enable(self) -> bool {
        bit32(self@, 2)
    }

    /// Returns the value of the Run/Stop bit.
    #[must_use]
    #[verifier::when_used_as_spec(spec_run_stop)]
    pub fn run_stop(self) -> (r: bool)
        ensures
            r == self.spec_run_stop(),
    {
        get_bit32(self.0, 0)
    }

    /// Sets the value of the Run/Stop bit.
    ///
    /// No other bit changes.
    pub fn set_run_stop(&mut self, b: bool)
        ensures
            final(self)@ == with_bit32(old(self)@, 0, b),
            final(self).run_stop() == b,
            final(self).host_controller_reset() == old(self).host_controller_reset(),
            final(self).spec_interrupter_enable() == old(self).spec_interrupter_enable(),
            forall|i: u32| i < 32 && i != 0 ==> bit32(final(self)@, i) == bit32(old(self)@, i),
    {
        proof {
            lemma_with_bit32_only(self.0, 0, b);
        }
        self.0 = set_bit32(self.0, 0, b);
    }

    /// Returns the value of the Host Controller Reset bit.
    #[must_use]
    #[verifier::when_used_as_spec(spec_host_controller_reset)]
    pub fn host_controller_reset(self) -> (r: bool)
        ensures
            r == self.spec_host_controller_reset(),
    {
        get_bit32(self.0, 1)
    }

    /// Sets the value of the Host Controller Reset bit.
    ///
    /// No other bit changes.
    pub fn set_host_controller_reset(&mut self, b: bool)
        ensures
            final(self)@ == with_bit32(old(self)@, 1, b),
            final(self).host_controller_reset() == b,
            final(self).run_stop() == old(self).run_stop(),
            final(self).spec_interrupter_enable() == old(self).spec_interrupter_enable(),
            forall|i: u32| i < 32 && i != 1 ==> bit32(final(self)@, i) == bit32(old(self)@, i),
    {
        proof {
            lemma_with_bit32_only(self.0, 1, b);
        }
        self.0 = set_bit32(self.0, 1, b);
    }

    /// Sets the value of the interrupter enable bit.
    ///
    /// No other bit changes.
    pub fn set_interrupter_enable(&mut self, b: bool)
        ensures
            final(self)@ == with_bit32(old(self)@, 2, b),
            final(self).spec_interrupter_enable() == b,
            final(self).run_stop() == old(self).run_stop(),
            final(self).host_controller_reset() == old(self).host_controller_reset(),
            forall|i: u32| i < 32 && i != 2 ==> bit32(final(self)@, i) == bit32(old(self)@, i),
    {
        proof {
            lemma_with_bit32_only(self.0, 2, b);
        }
        self.0 = set_bit32(self.0, 2, b);
    }
}

/// USB Status Register
#[derive(Copy, Clone, Debug)]
pub struct UsbStatusRegister(u32);

impl View for UsbStatusRegister {
    type V = u32;

    /// The value of the register.
    closed spec fn view(&self) -> u32 {
        self.0
    }
}

impl UsbStatusRegister {
    /// Wraps a value read from the USB Status Register.
    #[must_use]
    pub fn from_raw(raw: u32) -> (r: Self)
        ensures
            r@ == raw,
    {
        UsbStatusRegister(raw)
    }

    /// Returns the value to write to the USB Status Register.
    #[must_use]
    pub fn into_raw(self) -> (r: u32)
        ensures
            r == self@,
    {
        self.0
    }

    /// The value of the HCHalted bit: bit 0.
    pub open spec fn spec_hc_halted(self) -> bool {
        bit32(self@, 0)
    }

    /// The value of the Host System Error bit: bit 2.
    pub open spec fn spec_host_system_error(self) -> bool {
        bit32(self@, 2)
    }

    /// The value of the Controller Not Ready bit: bit 11.
    pub open spec fn spec_controller_not_ready(self) -> bool {
        bit32(self@, 11)
    }

    /// The value of the Host Controller Error bit: bit 12.
    pub open spec fn spec_host_controller_error(self) -> bool {
        bit32(self@, 12)
    }

    /// Returns the value of the HCHalted bit.
    #[must_use]
    #[verifier::when_used_as_spec(spec_hc_halted)]
    pub fn hc_halted(self) -> (r: bool)
        ensures
            r == self.spec_hc_halted(),
    {
        get_bit32(self.0, 0)
    }

    /// Returns the value of the Host System Error bit.
    #[must_use]
    #[verifier::when_used_as_spec(spec_host_system_error)]
    pub fn host_system_error(self) -> (r: bool)
        ensures
            r == self.spec_host_system_error(),
    {
        get_bit32(self.0, 2)
    }

    /// Returns the value of the Controller Not Ready bit.
    #[must_use]
    #[verifier::when_used_as_spec(spec_controller_not_ready)]
    pub fn controller_not_ready(self) -> (r: bool)
        ensures
            r == self.spec_controller_not_ready(),
    {
        get_bit32(self.0, 11)
    }

    /// Returns the value of the Host Controller Error bit.
    #[must_use]
    #[verifier::when_used_as_spec(spec_host_controller_error)]
    pub fn host_controller_error(self) -> (r: bool)
        ensures
            r == self.spec_host_controller_error(),
    {
        get_bit32(self.0, 12)
    }
}

/// Page Size Register
#[derive(Copy, Clone, Debug)]
pub struct PageSizeRegister(u32);

impl View for PageSizeRegister {
    type V = u32;

    /// The value of the register.
    closed spec fn view(&self) -> u32 {
        self.0
    }
}

impl PageSizeRegister {
    /// Wraps a value read from the Page Size Register.
    #[must_use]
    pub fn from_raw(raw: u32) -> (r: Self)
        ensures
            r@ == raw,
    {
        PageSizeRegister(raw)
    }

    /// Returns the value to write to the Page Size Register.
    #[must_use]
    pub fn into_raw(self) -> (r: u32)
        ensures
            r == self@,
    {
        self.0
    }

    /// Returns the value of the page size supported by xHC.
    ///
    /// The page size is the low 16 bits of the register. The high 16 bits are reserved, and the
    /// register must hold zero in them.
    #[must_use]
    pub fn get(self) -> (r: u16)
        requires
            self@ <= 0xffff,
        ensures
            r == self@,
    {
        self.0 as u16
    }
}

/// Command Ring Controller Register
#[derive(Copy, Clone, Debug)]
pub struct CommandRingControlRegister(u64);

impl View for CommandRingControlRegister {
    type V = u64;

    /// The value of the register.
    closed spec fn view(&self) -> u64 {
        self.0
    }
}

impl CommandRingControlRegister {
    /// Wraps a value read from the Command Ring Controller Register.
    #[must_use]
    pub fn from_raw(raw: u64) -> (r: Self)
        ensures
            r@ == raw,
    {
        CommandRingControlRegister(raw)
    }

    /// Returns the value to write to the Command Ring Controller Register.
    #[must_use]
    pub fn into_raw(self) -> (r: u64)
        ensures
            r == self@,
    {
        self.0
    }

    /// The value of the Ring Cycle State bit: bit 0.
    pub open spec fn spec_ring_cycle_state(self) -> bool {
        bit64(self@, 0)
    }

    /// The value of the command stop bit: bit 1.
    pub open spec fn spec_command_stop(self) -> bool {
        bit64(self@, 1)
    }

    /// The value of the command abort bit: bit 2.
    pub open spec fn spec_command_abort(self) -> bool {
        bit64(self@, 2)
    }

    /// The value of the Command Ring Running bit: bit 3.
    pub open spec fn spec_command_ring_running(self) -> bool {
        bit64(self@, 3)
    }

    /// The value of the Command Ring Pointer field: bits 6..=63, which are the pointer without its
    /// six low bits.
    pub open spec fn spec_command_ring_pointer(self) -> u64 {
        field64(self@, 6, 63)
    }

    /// Sets the value of the Ring Cycle State bit.
    ///
    /// No other bit changes.
    pub fn set_ring_cycle_state(&mut self, s: bool)
        ensures
            final(self)@ == with_bit64(old(self)@, 0, s),
            final(self).spec_ring_cycle_state() == s,
            final(self).spec_command_stop() == old(self).spec_command_stop(),
            final(self).spec_command_abort() == old(self).spec_command_abort(),
            final(self).command_ring_running() == old(self).command_ring_running(),
            final(self).spec_command_ring_pointer() == old(self).spec_command_ring_pointer(),
            forall|i: u32| i < 64 && i != 0 ==> bit64(final(self)@, i) == bit64(old(self)@, i),
    {
        proof {
            lemma_with_bit64_only(self.0, 0, s);
            lemma_with_bit64_field(self.0, 0, s, 6, 63);
        }
        self.0 = set_bit64(self.0, 0, s);
    }

    /// Sets the value of the command stop bit.
    ///
    /// No other bit changes.
    pub fn set_command_stop(&mut self, s: bool)
        ensures
            final(self)@ == with_bit64(old(self)@, 1, s),
            final(self).spec_command_stop() == s,
            final(self).spec_ring_cycle_state() == old(self).spec_ring_cycle_state(),
            final(self).spec_command_abort() == old(self).spec_command_abort(),
            final(self).command_ring_running() == old(self).command_ring_running(),
            final(self).spec_command_ring_pointer() == old(self).spec_command_ring_pointer(),
            forall|i: u32| i < 64 && i != 1 ==> bit64(final(self)@, i) == bit64(old(self)@, i),
    {
        proof {
            lemma_with_bit64_only(self.0, 1, s);
            lemma_with_bit64_field(self.0, 1, s, 6, 63);
        }
        self.0 = set_bit64(self.0, 1, s);
    }

    /// Sets the value of the command abort bit.
    ///
    /// No other bit changes.
    pub fn set_command_abort(&mut self, s: bool)
        ensures
            final(self)@ == with_bit64(old(self)@, 2, s),
            final(self).spec_command_abort() == s,
            final(self).spec_ring_cycle_state() == old(self).spec_ring_cycle_state(),
            final(self).spec_command_stop() == old(self).spec_command_stop(),
            final(self).command_ring_running() == old(self).command_ring_running(),
            final(self).spec_command_ring_pointer() == old(self).spec_command_ring_pointer(),
            forall|i: u32| i < 64 && i != 2 ==> bit64(final(self)@, i) == bit64(old(self)@, i),
    {
        proof {
            lemma_with_bit64_only(self.0, 2, s);
            lemma_with_bit64_field(self.0, 2, s, 6, 63);
        }
        self.0 = set_bit64(self.0, 2, s);
    }

    /// Returns the bit of the Command Ring Running bit.
    #[must_use]
    #[verifier::when_used_as_spec(spec_command_ring_running)]
    pub fn command_ring_running(self) -> (r: bool)
        ensures
            r == self.spec_command_ring_running(),
    {
        get_bit64(self.0, 3)
    }

    /// Sets the value of the Command Ring Pointer field. It must be 64 byte aligned.
    ///
    /// The six low bits of the register do not change.
    pub fn set_command_ring_pointer(&mut self, p: u64)
        requires
            p % 64 == 0,
        ensures
            final(self)@ == with_field64(old(self)@, 6, 63, p >> 6),
            final(self).spec_command_ring_pointer() * 64 == p,
            final(self).spec_ring_cycle_state() == old(self).spec_ring_cycle_state(),
            final(self).spec_command_stop() == old(self).spec_command_stop(),
            final(self).spec_command_abort() == old(self).spec_command_abort(),
            final(self).command_ring_running() == old(self).command_ring_running(),
            forall|i: u32| i < 6 ==> bit64(final(self)@, i) == bit64(old(self)@, i),
    {
        proof {
            lemma_aligned_pointer(p);
            lemma_with_field64_same(self.0, 6, 63, p >> 6);
            assert forall|i: u32| i < 6 implies bit64(with_field64(self.0, 6, 63, p >> 6), i)
                == bit64(self.0, i) by {
                lemma_with_field64_bit(self.0, 6, 63, p >> 6, i);
            }
        }
        let p: u64 = p >> 6;
        self.0 = set_bits64(self.0, 6, 63, p);
    }
}

/// A 64 byte aligned pointer without its six low bits fits in 58 bits, and is the pointer divided
/// by 64.
proof fn lemma_aligned_pointer(p: u64)
    by (bit_vector)
    requires
        p % 64 == 0,
    ensures
        p >> 6 <= field_max64(6, 63),
        (p >> 6) * 64 == p,
{
}

/// Device Context Base Address Array Pointer Register
#[derive(Copy, Clone, Debug)]
pub struct DeviceContextBaseAddressArrayPointerRegister(u64);

impl View for DeviceContextBaseAddressArrayPointerRegister {
    type V = u64;

    /// The value of the register.
    closed spec fn view(&self) -> u64 {
        self.0
    }
}

impl DeviceContextBaseAddressArrayPointerRegister {
    /// Wraps a value read from the Device Context Base Address Array Pointer Register.
    #[must_use]
    pub fn from_raw(raw: u64) -> (r: Self)
        ensures
            r@ == raw,
    {
        DeviceContextBaseAddressArrayPointerRegister(raw)
    }

    /// Returns the value to write to the Device Context Base Address Array Pointer Register.
    #[must_use]
    pub fn into_raw(self) -> (r: u64)
        ensures
            r == self@,
    {
        self.0
    }

    /// Sets the value of the Device Context Base Address Array Pointer. It must be 64 byte aligned.
    pub fn set(&mut self, p: u64)
        requires
            p % 64 == 0,
        ensures
            final(self)@ == p,
    {
        self.0 = p;
    }
}

/// Configure Register
#[derive(Copy, Clone, Debug)]
pub struct ConfigureRegister(u32);

impl View for ConfigureRegister {
    type V = u32;

    /// The value of the register.
    closed spec fn view(&self) -> u32 {
        self.0
    }
}

impl ConfigureRegister {
    /// Wraps a value read from the Configure Register.
    #[must_use]
    pub fn from_raw(raw: u32) -> (r: Self)
        ensures
            r@ == raw,
    {
        ConfigureRegister(raw)
    }

    /// Returns the value to write to the Configure Register.
    #[must_use]
    pub fn into_raw(self) -> (r: u32)
        ensures
            r == self@,
    {
        self.0
    }

    /// The value of the Max Device Slots Enabled field: bits 0..=7.
    pub open spec fn spec_max_device_slots_enabled(self) -> u8 {
        field32(self@, 0, 7) as u8
    }

    /// Returns the value of the Max Device Slots Enabled field.
    #[must_use]
    #[verifier::when_used_as_spec(spec_max_device_slots_enabled)]
    pub fn max_device_slots_enabled(self) -> (r: u8)
        ensures
            r == self.spec_max_device_slots_enabled(),
    {
        proof {
            lemma_field_max32(0, 7);
            lemma_field32_bound(self.0, 0, 7);
        }
        let bits: u32 = get_bits32(self.0, 0, 7);
        bits as u8
    }

    /// Sets the value of the Max Device Slots Enabled field.
    ///
    /// No bit above the field changes.
    pub fn set_max_device_slots_enabled(&mut self, s: u8)
        ensures
            final(self)@ == with_field32(old(self)@, 0, 7, s as u32),
            final(self).max_device_slots_enabled() == s,
            forall|i: u32| 8 <= i < 32 ==> bit32(final(self)@, i) == bit32(old(self)@, i),
    {
        proof {
            lemma_field_max32(0, 7);
            lemma_with_field32_same(self.0, 0, 7, s as u32);
            assert forall|i: u32| 8 <= i < 32 implies bit32(
                with_field32(self.0, 0, 7, s as u32),
                i,
            ) == bit32(self.0, i) by {
                lemma_with_field32_bit(self.0, 0, 7, s as u32, i);
            }
        }
        self.0 = set_bits32(self.0, 0, 7, s as u32);
    }
}

/// Port Register Set
#[derive(Copy, Clone, Debug)]
pub struct PortRegisterSet {
    /// Port Status and Control Register
    pub portsc: PortStatusAndControlRegister,
    /// Port Power Management Status and Control Register
    pub portpmsc: u32,
    /// Port Link Info Register
    pub portli: u32,
    /// Port Hardware LPM Control Register
    pub porthlpmc: u32,
}

impl PortRegisterSet {
    /// The address of the first Port Register Set of a controller whose registers start at
    /// `mmio_base` and whose Capability Registers are `caplength` bytes long: 0x400 bytes after
    /// the end of the Capability Registers, if that lies in the address space.
    pub open spec fn spec_base(mmio_base: usize, caplength: u8) -> Option<usize> {
        if mmio_base + caplength + 0x400 <= usize::MAX {
            Some((mmio_base + caplength + 0x400) as usize)
        } else {
            None
        }
    }

    /// Returns the address of the first Port Register Set of a controller whose registers start
    /// at `mmio_base` and whose Capability Registers are `caplength` bytes long, or `None` if it
    /// would lie beyond the address space.
    #[must_use]
    #[verifier::when_used_as_spec(spec_base)]
    pub fn base(mmio_base: usize, caplength: u8) -> (r: Option<usize>)
        ensures
            r == Self::spec_base(mmio_base, caplength),
            r is Some <==> mmio_base + caplength + 0x400 <= usize::MAX,
    {
        match mmio_base.checked_add(caplength as usize) {
            Some(base) => base.checked_add(0x400),
            None => None,
        }
    }

    /// Wraps the values read from the four registers of a Port Register Set, in the order in which
    /// they lie in memory: PORTSC, PORTPMSC, PORTLI and PORTHLPMC.
    #[must_use]
    pub fn from_raw(raw: [u32; 4]) -> (r: Self)
        ensures
            r.portsc@ == raw[0],
            r.portpmsc == raw[1],
            r.portli == raw[2],
            r.porthlpmc == raw[3],
    {
        PortRegisterSet {
            portsc: PortStatusAndControlRegister::from_raw(raw[0]),
            portpmsc: raw[1],
            portli: raw[2],
            porthlpmc: raw[3],
        }
    }

    /// Returns the values to write to the four registers of a Port Register Set, in the order in
    /// which they lie in memory: PORTSC, PORTPMSC, PORTLI and PORTHLPMC.
    #[must_use]
    pub fn into_raw(self) -> (r: [u32; 4])
        ensures
            r@ == seq![self.portsc@, self.portpmsc, self.portli, self.porthlpmc],
    {
        let r: [u32; 4] = [self.portsc.into_raw(), self.portpmsc, self.portli, self.porthlpmc];
        assert(r@ =~= seq![self.portsc@, self.portpmsc, self.portli, self.porthlpmc]);
        r
    }
}

/// Port Status and Control Register
#[derive(Copy, Clone, Debug)]
pub struct PortStatusAndControlRegister(u32);

impl View for PortStatusAndControlRegister {
    type V = u32;

    /// The value of the register.
    closed spec fn view(&self) -> u32 {
        self.0
    }
}

impl PortStatusAndControlRegister {
    /// Wraps a value read from the Port Status and Control Register.
    #[must_use]
    pub fn from_raw(raw: u32) -> (r: Self)
        ensures
            r@ == raw,
    {
        PortStatusAndControlRegister(raw)
    }

    /// Returns the value to write to the Port Status and Control Register.
    #[must_use]
    pub fn into_raw(self) -> (r: u32)
        ensures
            r == self@,
    {
        self.0
    }

    /// The value of the Current Connect Status bit: bit 0.
    pub open spec fn spec_current_connect_status(self) -> bool {
        bit32(self@, 0)
    }

    /// The value of the Port Enabled Disabled bit: bit 1.
    pub open spec fn spec_port_enabled_disabled(self) -> bool {
        bit32(self@, 1)
    }

    /// The value of the Port Reset bit: bit 4.
    pub open spec fn spec_port_reset(self) -> bool {
        bit32(self@, 4)
    }

    /// The value of the Port Speed field: bits 10..=13.
    pub open spec fn spec_port_speed(self) -> u8 {
        field32(self@, 10, 13) as u8
    }

    /// The value of the Port Reset Changed bit: bit 21.
    pub open spec fn spec_port_reset_changed(self) -> bool {
        bit32(self@, 21)
    }

    /// Returns the value of the Current Connect Status bit.
    #[must_use]
    #[verifier::when_used_as_spec(spec_current_connect_status)]
    pub fn current_connect_status(self) -> (r: bool)
        ensures
            r == self.spec_current_connect_status(),
    {
        get_bit32(self.0, 0)
    }

    /// Returns the value of the Port Enabled Disabled bit.
    #[verifier::when_used_as_spec(spec_port_enabled_disabled)]
    pub fn port_enabled_disabled(self) -> (r: bool)
        ensures
            r == self.spec_port_enabled_disabled(),
    {
        get_bit32(self.0, 1)
    }

    /// Returns the value of the Port Reset bit.
    #[must_use]
    #[verifier::when_used_as_spec(spec_port_reset)]
    pub fn port_reset(self) -> (r: bool)
        ensures
            r == self.spec_port_reset(),
    {
        get_bit32(self.0, 4)
    }

    /// Sets the value of the Port Reset bit.
    ///
    /// No other bit changes.
    pub fn set_port_reset(&mut self, b: bool)
        ensures
            final(self)@ == with_bit32(old(self)@, 4, b),
            final(self).port_reset() == b,
            final(self).current_connect_status() == old(self).current_connect_status(),
            final(self).port_enabled_disabled() == old(self).port_enabled_disabled(),
            final(self).port_speed() == old(self).port_speed(),
            final(self).port_reset_changed() == old(self).port_reset_changed(),
            forall|i: u32| i < 32 && i != 4 ==> bit32(final(self)@, i) == bit32(old(self)@, i),
    {
        proof {
            lemma_with_bit32_only(self.0, 4, b);
            lemma_with_bit32_field(self.0, 4, b, 10, 13);
        }
        self.0 = set_bit32(self.0, 4, b);
    }

    /// Returns the value of the Port Speed field.
    #[must_use]
    #[verifier::when_used_as_spec(spec_port_speed)]
    pub fn port_speed(self) -> (r: u8)
        ensures
            r == self.spec_port_speed(),
            r <= 0xf,
    {
        proof {
            lemma_field_max32(10, 13);
            lemma_field32_bound(self.0, 10, 13);
        }
        let bits: u32 = get_bits32(self.0, 10, 13);
        bits as u8
    }

    /// Returns the value of the Port Reset Changed bit.
    #[must_use]
    #[verifier::when_used_as_spec(spec_port_reset_changed)]
    pub fn port_reset_changed(self) -> (r: bool)
        ensures
            r == self.spec_port_reset_changed(),
    {
        get_bit32(self.0, 21)
    }

    /// Sets the value of the Port Reset Changed bit.
    ///
    /// No other bit changes.
    pub fn set_port_reset_changed(&mut self, b: bool)
        ensures
            final(self)@ == with_bit32(old(self)@, 21, b),
            final(self).port_reset_changed() == b,
            final(self).current_connect_status() == old(self).current_connect_status(),
            final(self).port_enabled_disabled() == old(self).port_enabled_disabled(),
            final(self).port_reset() == old(self).port_reset(),
            final(self).port_speed() == old(self).port_speed(),
            forall|i: u32| i < 32 && i != 21 ==> bit32(final(self)@, i) == bit32(old(self)@, i),
    {
        proof {
            lemma_with_bit32_only(self.0, 21, b);
            lemma_with_bit32_field(self.0, 21, b, 10, 13);
        }
        self.0 = set_bit32(self.0, 21, b);
    }

    /// Assign the value of the bit flags by applying bitor
    pub fn bit_or_assign(&mut self, bits: u32)
        ensures
            final(self)@ == old(self)@ | bits,
    {
        self.0 = self.0 | bits;
    }

    /// Assign the value of the bit flags by applying bitand
    pub fn bit_and_assign(&mut self, bits: u32)
        ensures
            final(self)@ == old(self)@ & bits,
    {
        self.0 = self.0 & bits;
    }
}

} // verus!
