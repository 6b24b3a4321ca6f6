//! The processor status flags and their packed byte form.
use vstd::prelude::*;

verus! {

/// Carry: bit 0 of the packed status byte.
pub const C: u8 = 0x01;

/// Zero: bit 1.
pub const Z: u8 = 0x02;

/// Interrupt disable: bit 2.
pub const I: u8 = 0x04;

/// Decimal mode: bit 3.
pub const D: u8 = 0x08;

/// Break: bit 4. It exists only in a status byte that is pushed on the stack.
pub const B: u8 = 0x10;

/// Bit 5 has no flag behind it and reads as one in every packed byte.
pub const U: u8 = 0x20;

/// Overflow: bit 6.
pub const V: u8 = 0x40;

/// Negative: bit 7.
pub const N: u8 = 0x80;

/// The six flags that the processor holds. Break is not among them.
#[derive(Clone, Copy, Debug, PartialEq, Eq, Structural)]
pub struct Flags {
    pub n: bool,
    pub v: bool,
    pub d: bool,
    pub i: bool,
    pub z: bool,
    pub c: bool,
}

/// `mask` where `on` holds, no bit otherwise.
pub open spec fn mask_if(on: bool, mask: u8) -> u8 {
    if on {
        mask
    } else {
        0
    }
}

/// Whether `byte` has any bit of `mask` set.
pub open spec fn any_bit(byte: u8, mask: u8) -> bool {
    byte & mask != 0
}

impl Flags {
    /// The flags right after power-on or reset: interrupts disabled, all else clear.
    pub open spec fn power_on() -> Flags {
        Flags { n: false, v: false, d: false, i: true, z: false, c: false }
    }

    /// These flags with zero and negative taken from `value`.
    pub open spec fn with_zn(self, value: u8) -> Flags {
        Flags { z: value == 0, n: value >= 0x80, ..self }
    }

    /// The status byte: carry, zero, interrupt disable, decimal, one, zero, overflow,
    /// negative, from bit 0 up.
    pub open spec fn packed(self) -> u8 {
        mask_if(self.n, N) | mask_if(self.v, V) | U | mask_if(self.d, D) | mask_if(self.i, I)
            | mask_if(self.z, Z) | mask_if(self.c, C)
    }

    /// The flags that a status byte stands for. Bits 4 and 5 stand for none.
    pub open spec fn unpacked(byte: u8) -> Flags {
        Flags {
            n: any_bit(byte, N),
            v: any_bit(byte, V),
            d: any_bit(byte, D),
            i: any_bit(byte, I),
            z: any_bit(byte, Z),
            c: any_bit(byte, C),
        }
    }

    pub fn new() -> (flags: Flags)
        ensures
            flags == Flags::power_on(),
    {
        Flags { n: false, v: false, d: false, i: true, z: false, c: false }
    }

    pub fn reset(&mut self)
        ensures
            *final(self) == Flags::power_on(),
    {
        *self = Flags::new();
    }

    /// Sets zero and negative from `value` and hands `value` back.
    pub fn set_zn(&mut self, value: u8) -> (same: u8)
        ensures
            same == value,
            *final(self) == old(self).with_zn(value),
    {
        self.z = value == 0;
        self.n = value >= 0x80;
        value
    }

    /// The status byte. Bit 5 is set in it and Break is clear.
    pub fn pack(&self) -> (byte: u8)
        ensures
            byte == self.packed(),
            byte & U == U,
            byte & B == 0,
            Flags::unpacked(byte) == *self,
    {
        proof {
            packed_has_bit_five(*self);
            unpack_inverts_pack(*self);
        }
        let n: u8 = if self.n { N } else { 0 };
        let v: u8 = if self.v { V } else { 0 };
        let d: u8 = if self.d { D } else { 0 };
        let i: u8 = if self.i { I } else { 0 };
        let z: u8 = if self.z { Z } else { 0 };
        let c: u8 = if self.c { C } else { 0 };
        n | v | U | d | i | z | c
    }

    /// Takes the six flags from a status byte. Bits 4 and 5 of the byte are
    /// not looked at.
    pub fn unpack(&mut self, byte: u8)
        ensures
            *final(self) == Flags::unpacked(byte),
    {
        self.n = byte & N != 0;
        self.v = byte & V != 0;
        self.d = byte & D != 0;
        self.i = byte & I != 0;
        self.z = byte & Z != 0;
        self.c = byte & C != 0;
    }
}

/// Or-ing masks that are single bits, or nothing, sets exactly those bits.
proof fn lemma_packed_bits(n: u8, v: u8, d: u8, i: u8, z: u8, c: u8)
    by (bit_vector)
    requires
        n == 0x80u8 || n == 0u8,
        v == 0x40u8 || v == 0u8,
        d == 0x08u8 || d == 0u8,
        i == 0x04u8 || i == 0u8,
        z == 0x02u8 || z == 0u8,
        c == 0x01u8 || c == 0u8,
    ensures
        ((n | v | 0x20u8 | d | i | z | c) & 0x80u8 != 0u8) == (n == 0x80u8),
        ((n | v | 0x20u8 | d | i | z | c) & 0x40u8 != 0u8) == (v == 0x40u8),
        ((n | v | 0x20u8 | d | i | z | c) & 0x08u8 != 0u8) == (d == 0x08u8),
        ((n | v | 0x20u8 | d | i | z | c) & 0x04u8 != 0u8) == (i == 0x04u8),
        ((n | v | 0x20u8 | d | i | z | c) & 0x02u8 != 0u8) == (z == 0x02u8),
        ((n | v | 0x20u8 | d | i | z | c) & 0x01u8 != 0u8) == (c == 0x01u8),
        (n | v | 0x20u8 | d | i | z | c) & 0x20u8 == 0x20u8,
        (n | v | 0x20u8 | d | i | z | c) & 0x10u8 == 0u8,
{
}

/// What a status byte stands for does not depend on its bits 4 and 5.
proof fn lemma_flag_bits_apart(byte: u8, other: u8)
    by (bit_vector)
    requires
        byte & 0xCFu8 == other & 0xCFu8,
    ensures
        byte & 0x80u8 == other & 0x80u8,
        byte & 0x40u8 == other & 0x40u8,
        byte & 0x08u8 == other & 0x08u8,
        byte & 0x04u8 == other & 0x04u8,
        byte & 0x02u8 == other & 0x02u8,
        byte & 0x01u8 == other & 0x01u8,
{
}

/// Setting Break in a byte changes none of its other bits.
proof fn lemma_break_apart(byte: u8)
    by (bit_vector)
    ensures
        (byte | 0x10u8) & 0xCFu8 == byte & 0xCFu8,
        (byte | 0x10u8) & 0x10u8 == 0x10u8,
{
}

/// Every packed status byte has bit 5 set and Break clear.
pub proof fn packed_has_bit_five(flags: Flags)
    ensures
        flags.packed() & U == U,
        flags.packed() & B == 0,
{
    lemma_packed_bits(
        mask_if(flags.n, N),
        mask_if(flags.v, V),
        mask_if(flags.d, D),
        mask_if(flags.i, I),
        mask_if(flags.z, Z),
        mask_if(flags.c, C),
    );
}

/// Unpacking a packed status byte gives the flags that were packed.
pub proof fn unpack_inverts_pack(flags: Flags)
    ensures
        Flags::unpacked(flags.packed()) == flags,
{
    lemma_packed_bits(
        mask_if(flags.n, N),
        mask_if(flags.v, V),
        mask_if(flags.d, D),
        mask_if(flags.i, I),
        mask_if(flags.z, Z),
        mask_if(flags.c, C),
    );
}

/// Two status bytes that differ in bits 4 and 5 alone stand for the same
/// flags: unpacking keeps nothing of Break and of bit 5.
pub proof fn unpack_ignores_break_and_bit_five(byte: u8, other: u8)
    requires
        byte & 0xCF == other & 0xCF,
    ensures
        Flags::unpacked(byte) == Flags::unpacked(other),
{
    lemma_flag_bits_apart(byte, other);
}

/// A status byte that went on the stack with Break set comes back as the
/// flags that were pushed.
pub proof fn unpack_inverts_pack_with_break(flags: Flags)
    ensures
        Flags::unpacked(flags.packed() | B) == flags,
        (flags.packed() | B) & B == B,
{
    lemma_break_apart(flags.packed());
    unpack_ignores_break_and_bit_five(flags.packed() | B, flags.packed());
    unpack_inverts_pack(flags);
}

} // verus!
