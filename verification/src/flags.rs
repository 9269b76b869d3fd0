//! The processor status register: one named boolean per condition bit,
//! with the packed byte layout (N V 1 B D I Z C, bit 7 down to bit 0)
//! kept to exchange the register with the stack on PHP, PLP and RTI.
use vstd::prelude::*;

verus! {

/// The status register as named condition bits. `unused` is the bit that
/// real hardware holds high between the Break and Overflow bits.
#[derive(Debug, Clone, Copy, PartialEq, Eq, Structural)]
pub struct Flags {
    pub carry: bool,
    pub zero: bool,
    pub interrupt_disable: bool,
    pub decimal: bool,
    pub brk: bool,
    pub unused: bool,
    pub overflow: bool,
    pub negative: bool,
}

/// The flags after a value has passed through a load, transfer, logical,
/// increment or decrement operation: Zero tracks the value being zero,
/// Negative tracks its bit 7, every other flag keeps its prior value.
pub open spec fn flags_with_zn(f: Flags, v: u8) -> Flags {
    Flags { zero: v == 0, negative: v & 0x80 != 0, ..f }
}

/// The register packed into one byte in the hardware layout:
/// C, Z, I, D at bits 0 to 3, B at bit 4, the fixed bit at bit 5,
/// V at bit 6, N at bit 7.
pub open spec fn spec_pack_flags(f: Flags) -> u8 {
    ((if f.carry { 1int } else { 0 })
        + (if f.zero { 2int } else { 0 })
        + (if f.interrupt_disable { 4int } else { 0 })
        + (if f.decimal { 8int } else { 0 })
        + (if f.brk { 16int } else { 0 })
        + (if f.unused { 32int } else { 0 })
        + (if f.overflow { 64int } else { 0 })
        + (if f.negative { 128int } else { 0 })) as u8
}

/// A byte pulled from the stack read back as flags. The Break bit has no
/// stored counterpart in the register, so it comes back clear, and the
/// fixed bit comes back high, as on PLP and RTI in hardware.
pub open spec fn spec_unpack_flags(b: u8) -> Flags {
    Flags {
        carry: b & 1 != 0,
        zero: b & 2 != 0,
        interrupt_disable: b & 4 != 0,
        decimal: b & 8 != 0,
        brk: false,
        unused: true,
        overflow: b & 64 != 0,
        negative: b & 128 != 0,
    }
}

/// Packs the flags into the hardware byte layout.
pub fn pack_flags(f: &Flags) -> (r: u8)
    ensures
        r == spec_pack_flags(*f),
{
    let mut r: u8 = 0;
    if f.carry {
        r = r + 1;
    }
    if f.zero {
        r = r + 2;
    }
    if f.interrupt_disable {
        r = r + 4;
    }
    if f.decimal {
        r = r + 8;
    }
    if f.brk {
        r = r + 16;
    }
    if f.unused {
        r = r + 32;
    }
    if f.overflow {
        r = r + 64;
    }
    if f.negative {
        r = r + 128;
    }
    r
}

/// Reads a byte back as flags, clearing Break and fixing the unused bit
/// high, as PLP and RTI do.
pub fn unpack_flags(b: u8) -> (r: Flags)
    ensures
        r == spec_unpack_flags(b),
{
    Flags {
        carry: b & 1 != 0,
        zero: b & 2 != 0,
        interrupt_disable: b & 4 != 0,
        decimal: b & 8 != 0,
        brk: false,
        unused: true,
        overflow: b & 64 != 0,
        negative: b & 128 != 0,
    }
}

} // verus!
