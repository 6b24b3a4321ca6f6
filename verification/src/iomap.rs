//! The memory bus as the processor sees it: a byte read from and a byte written
//! to a 16-bit address.
use vstd::prelude::*;

verus! {

/// The low byte of a word.
pub open spec fn lo(word: u16) -> u8 {
    (word % 0x100) as u8
}

/// The high byte of a word.
pub open spec fn hi(word: u16) -> u8 {
    (word / 0x100) as u8
}

/// The word with the given low and high bytes.
pub open spec fn word(low: u8, high: u8) -> u16 {
    (high * 0x100 + low) as u16
}

/// `n` modulo 2^8.
pub open spec fn wrap8(n: int) -> u8 {
    (n % 0x100) as u8
}

/// `n` modulo 2^16.
pub open spec fn wrap16(n: int) -> u16 {
    (n % 0x10000) as u16
}

pub fn lo_byte(word: u16) -> (byte: u8)
    ensures
        byte == lo(word),
{
    (word % 0x100) as u8
}

pub fn hi_byte(word: u16) -> (byte: u8)
    ensures
        byte == hi(word),
{
    (word / 0x100) as u8
}

pub fn make_word(low: u8, high: u8) -> (w: u16)
    ensures
        w == word(low, high),
        lo(w) == low,
        hi(w) == high,
{
    high as u16 * 0x100 + low as u16
}

/// A bus: whatever answers reads and takes writes at 16-bit addresses.
///
/// `Model` is all that decides what the bus will answer; `read` and `written`
/// say, over the model, what a read returns and what a write leaves behind. A
/// read does not change the model.
pub trait IoMap: Sized {
    type Model;

    spec fn view(&self) -> Self::Model;

    /// The byte that a bus in state `model` returns for `address`.
    spec fn read(model: Self::Model, address: u16) -> u8;

    /// The state of a bus that was in state `model` and took `byte` at `address`.
    spec fn written(model: Self::Model, address: u16, byte: u8) -> Self::Model;

    fn peek8(&self, address: u16) -> (byte: u8)
        ensures
            byte == Self::read(self@, address),
    ;

    fn poke8(&mut self, address: u16, byte: u8)
        ensures
            final(self)@ == Self::written(old(self)@, address, byte),
    ;

    /// Reads a little-endian word; the high byte comes from the next address,
    /// which wraps from 0xFFFF to 0.
    fn peek16(&self, address: u16) -> (w: u16)
        ensures
            w == word(Self::read(self@, address), Self::read(self@, wrap16(address + 1))),
    {
        let low = self.peek8(address);
        let high = self.peek8(address.wrapping_add(1));
        make_word(low, high)
    }
}

/// The little-endian word at `address` on a bus in state `model`.
pub open spec fn read16<B: IoMap>(model: B::Model, address: u16) -> u16 {
    word(B::read(model, address), B::read(model, wrap16(address + 1)))
}

/// Whether every bus of kind `B` returns at `address` the byte last written
/// there, whatever was written elsewhere since.
pub open spec fn keeps<B: IoMap>(address: u16) -> bool {
    forall|model: B::Model, to: u16, byte: u8|
        B::read(#[trigger] B::written(model, to, byte), address) == (if to == address {
            byte
        } else {
            B::read(model, address)
        })
}

} // verus!
