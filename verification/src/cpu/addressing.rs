//! The addressing modes: where an instruction finds its operand.
use vstd::prelude::*;
use crate::cpu::Cpu;
use crate::cpu::State;
use crate::cpu::opcode::AddressingMode;
use crate::iomap::IoMap;
use crate::iomap::hi;
use crate::iomap::hi_byte;
use crate::iomap::lo;
use crate::iomap::lo_byte;
use crate::iomap::make_word;
use crate::iomap::word;
use crate::iomap::wrap16;
use crate::iomap::wrap8;

verus! {

/// What an addressing mode comes to: the address of the operand, and whether
/// an index carried the address into another page.
#[derive(Clone, Copy, Debug, PartialEq, Eq, Structural)]
pub struct Operand {
    pub address: u16,
    pub crossed: bool,
}

/// `base` with `index` added, and whether the sum lies in another page.
pub open spec fn indexed(base: u16, index: u8) -> Operand {
    Operand { address: wrap16(base + index), crossed: lo(base) + index > 0xFF }
}

/// The address after `pointer` within the page of `pointer`: after the last
/// byte of a page comes its first.
pub open spec fn next_in_page(pointer: u16) -> u16 {
    word(wrap8(lo(pointer) + 1), hi(pointer))
}

/// An address in page zero.
pub open spec fn zero_page(low: u8) -> u16 {
    word(low, 0)
}

impl AddressingMode {
    /// The number of bytes that follow the opcode.
    pub open spec fn spec_operand_len(self) -> u16 {
        match self {
            AddressingMode::Implied | AddressingMode::Accumulator => 0,
            AddressingMode::Absolute
            | AddressingMode::AbsoluteX
            | AddressingMode::AbsoluteY
            | AddressingMode::Indirect => 2,
            _ => 1,
        }
    }

    #[verifier::when_used_as_spec(spec_operand_len)]
    pub fn operand_len(self) -> (len: u16)
        ensures
            len == self.spec_operand_len(),
    {
        match self {
            AddressingMode::Implied | AddressingMode::Accumulator => 0,
            AddressingMode::Absolute
            | AddressingMode::AbsoluteX
            | AddressingMode::AbsoluteY
            | AddressingMode::Indirect => 2,
            _ => 1,
        }
    }
}

impl<B: IoMap> State<B> {
    /// The word in page zero at `low`. Its high byte comes from the next
    /// address within page zero.
    pub open spec fn zero_page_word(self, low: u8) -> u16 {
        word(self.peek(zero_page(low)), self.peek(zero_page(wrap8(low + 1))))
    }

    /// What `mode` comes to when the program counter stands on the first byte
    /// after the opcode. Implied and accumulator operands have no address; an
    /// immediate operand and a branch distance lie at the program counter.
    pub open spec fn operand(self, mode: AddressingMode) -> Operand {
        let byte = self.peek(self.pc);
        let pointer = self.peek_word(self.pc);
        match mode {
            AddressingMode::Implied | AddressingMode::Accumulator => Operand {
                address: 0,
                crossed: false,
            },
            AddressingMode::Immediate | AddressingMode::Relative => Operand {
                address: self.pc,
                crossed: false,
            },
            AddressingMode::ZeroPage => Operand { address: zero_page(byte), crossed: false },
            AddressingMode::ZeroPageX => Operand {
                address: zero_page(wrap8(byte + self.x)),
                crossed: false,
            },
            AddressingMode::ZeroPageY => Operand {
                address: zero_page(wrap8(byte + self.y)),
                crossed: false,
            },
            AddressingMode::Absolute => Operand { address: pointer, crossed: false },
            AddressingMode::AbsoluteX => indexed(pointer, self.x),
            AddressingMode::AbsoluteY => indexed(pointer, self.y),
            AddressingMode::Indirect => Operand {
                address: word(self.peek(pointer), self.peek(next_in_page(pointer))),
                crossed: false,
            },
            AddressingMode::IndexedIndirect => Operand {
                address: self.zero_page_word(wrap8(byte + self.x)),
                crossed: false,
            },
            AddressingMode::IndirectIndexed => indexed(self.zero_page_word(byte), self.y),
        }
    }

    /// This state with the program counter past the operand of `mode`.
    pub open spec fn resolved(self, mode: AddressingMode) -> Self {
        self.skipped(mode.spec_operand_len() as int)
    }
}

impl<B: IoMap> Cpu<B> {
    /// Reads a word from page zero.
    pub fn peek_zero_page_word(&self, low: u8) -> (w: u16)
        ensures
            w == self@.zero_page_word(low),
    {
        let first = self.peek8(make_word(low, 0));
        let second = self.peek8(make_word(low.wrapping_add(1), 0));
        make_word(first, second)
    }

    pub fn immediate(&mut self) -> (operand: Operand)
        ensures
            operand == old(self)@.operand(AddressingMode::Immediate),
            final(self)@ == old(self)@.resolved(AddressingMode::Immediate),
    {
        let address = self.pc;
        self.pc = self.pc.wrapping_add(1);
        Operand { address, crossed: false }
    }

    pub fn relative(&mut self) -> (operand: Operand)
        ensures
            operand == old(self)@.operand(AddressingMode::Relative),
            final(self)@ == old(self)@.resolved(AddressingMode::Relative),
    {
        let address = self.pc;
        self.pc = self.pc.wrapping_add(1);
        Operand { address, crossed: false }
    }

    pub fn zero_page(&mut self) -> (operand: Operand)
        ensures
            operand == old(self)@.operand(AddressingMode::ZeroPage),
            final(self)@ == old(self)@.resolved(AddressingMode::ZeroPage),
    {
        let byte = self.fetch8();
        Operand { address: make_word(byte, 0), crossed: false }
    }

    pub fn zero_page_x(&mut self) -> (operand: Operand)
        ensures
            operand == old(self)@.operand(AddressingMode::ZeroPageX),
            final(self)@ == old(self)@.resolved(AddressingMode::ZeroPageX),
    {
        let byte = self.fetch8();
        Operand { address: make_word(byte.wrapping_add(self.x), 0), crossed: false }
    }

    pub fn zero_page_y(&mut self) -> (operand: Operand)
        ensures
            operand == old(self)@.operand(AddressingMode::ZeroPageY),
            final(self)@ == old(self)@.resolved(AddressingMode::ZeroPageY),
    {
        let byte = self.fetch8();
        Operand { address: make_word(byte.wrapping_add(self.y), 0), crossed: false }
    }

    pub fn absolute(&mut self) -> (operand: Operand)
        ensures
            operand == old(self)@.operand(AddressingMode::Absolute),
            final(self)@ == old(self)@.resolved(AddressingMode::Absolute),
    {
        let address = self.fetch16();
        Operand { address, crossed: false }
    }

    pub fn absolute_x(&mut self) -> (operand: Operand)
        ensures
            operand == old(self)@.operand(AddressingMode::AbsoluteX),
            final(self)@ == old(self)@.resolved(AddressingMode::AbsoluteX),
    {
        let base = self.fetch16();
        add_index(base, self.x)
    }

    pub fn absolute_y(&mut self) -> (operand: Operand)
        ensures
            operand == old(self)@.operand(AddressingMode::AbsoluteY),
            final(self)@ == old(self)@.resolved(AddressingMode::AbsoluteY),
    {
        let base = self.fetch16();
        add_index(base, self.y)
    }

    /// The operand of an indirect jump. The pointer's second byte is read
    /// without a carry into the pointer's high byte, as the hardware does.
    pub fn indirect(&mut self) -> (operand: Operand)
        ensures
            operand == old(self)@.operand(AddressingMode::Indirect),
            final(self)@ == old(self)@.resolved(AddressingMode::Indirect),
    {
        let pointer = self.fetch16();
        let low = self.peek8(pointer);
        let high = self.peek8(make_word(lo_byte(pointer).wrapping_add(1), hi_byte(pointer)));
        Operand { address: make_word(low, high), crossed: false }
    }

    pub fn indexed_indirect(&mut self) -> (operand: Operand)
        ensures
            operand == old(self)@.operand(AddressingMode::IndexedIndirect),
            final(self)@ == old(self)@.resolved(AddressingMode::IndexedIndirect),
    {
        let byte = self.fetch8();
        let address = self.peek_zero_page_word(byte.wrapping_add(self.x));
        Operand { address, crossed: false }
    }

    pub fn indirect_indexed(&mut self) -> (operand: Operand)
        ensures
            operand == old(self)@.operand(AddressingMode::IndirectIndexed),
            final(self)@ == old(self)@.resolved(AddressingMode::IndirectIndexed),
    {
        let byte = self.fetch8();
        let base = self.peek_zero_page_word(byte);
        add_index(base, self.y)
    }

    /// Reads the operand bytes of `mode` at the program counter, moves the
    /// counter past them and says where the operand is.
    pub fn resolve(&mut self, mode: AddressingMode) -> (operand: Operand)
        ensures
            operand == old(self)@.operand(mode),
            final(self)@ == old(self)@.resolved(mode),
    {
        match mode {
            AddressingMode::Implied | AddressingMode::Accumulator => Operand {
                address: 0,
                crossed: false,
            },
            AddressingMode::Immediate => self.immediate(),
            AddressingMode::Relative => self.relative(),
            AddressingMode::ZeroPage => self.zero_page(),
            AddressingMode::ZeroPageX => self.zero_page_x(),
            AddressingMode::ZeroPageY => self.zero_page_y(),
            AddressingMode::Absolute => self.absolute(),
            AddressingMode::AbsoluteX => self.absolute_x(),
            AddressingMode::AbsoluteY => self.absolute_y(),
            AddressingMode::Indirect => self.indirect(),
            AddressingMode::IndexedIndirect => self.indexed_indirect(),
            AddressingMode::IndirectIndexed => self.indirect_indexed(),
        }
    }
}

/// Adds an index register to a base address.
pub fn add_index(base: u16, index: u8) -> (operand: Operand)
    ensures
        operand == indexed(base, index),
{
    let address = base.wrapping_add(index as u16);
    Operand { address, crossed: hi_byte(address) != hi_byte(base) }
}

} // verus!
