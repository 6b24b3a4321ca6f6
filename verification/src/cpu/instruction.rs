//! What each operation does to the registers, the flags and the stack.
use vstd::prelude::*;
use crate::base::IRQ_VECTOR;
use crate::cpu::Cpu;
use crate::cpu::CpuFault;
use crate::cpu::State;
use crate::cpu::push_keeps_stack;
use crate::cpu::pop_returns_last_pushed;
use crate::cpu::stack_is_ram;
use crate::cpu::flags::Flags;
use crate::cpu::flags::any_bit;
use crate::cpu::flags::B;
use crate::cpu::flags::unpack_inverts_pack_with_break;
use crate::iomap::IoMap;
use crate::iomap::hi;
use crate::iomap::lo;
use crate::iomap::wrap16;
use crate::iomap::wrap8;

verus! {

/// The number that a byte stands for when read as two's complement.
pub open spec fn signed(byte: u8) -> int {
    if byte >= 0x80 {
        byte - 0x100
    } else {
        byte as int
    }
}

/// Whether `n` lies outside what a signed byte can hold.
pub open spec fn overflows(n: int) -> bool {
    n < -128 || n > 127
}

/// One for a set carry flag, zero for a clear one.
pub open spec fn carry_value(carry: bool) -> int {
    if carry {
        1
    } else {
        0
    }
}

/// `byte` shifted left by one bit; bit 7 drops out.
pub open spec fn shifted_left(byte: u8) -> u8 {
    wrap8(byte * 2)
}

/// `byte` shifted right by one bit; bit 0 drops out.
pub open spec fn shifted_right(byte: u8) -> u8 {
    byte / 2
}

/// `byte` shifted left by one bit, with `carry` coming in as bit 0.
pub open spec fn rotated_left(byte: u8, carry: bool) -> u8 {
    wrap8(byte * 2 + carry_value(carry))
}

/// `byte` shifted right by one bit, with `carry` coming in as bit 7.
pub open spec fn rotated_right(byte: u8, carry: bool) -> u8 {
    (byte / 2 + 0x80 * carry_value(carry)) as u8
}

/// Facts that tie the bit operations on a byte to arithmetic.
proof fn lemma_byte_bits(byte: u8)
    by (bit_vector)
    ensures
        (byte & 0x80 != 0) == (byte >= 0x80),
        (byte & 0x01 != 0) == (byte % 2 == 1),
        byte >> 1 == byte / 2,
        (byte << 1) & 0x01 == 0,
        (byte >> 1) & 0x80 == 0,
{
}

/// A shift to the left by one bit doubles a byte, modulo 2^8.
proof fn lemma_shift_left(byte: u8)
    by (bit_vector)
    ensures
        (byte << 1) as int == (byte * 2) % 0x100,
{
}

/// Or-ing a bit into a byte in which it is clear adds it.
proof fn lemma_insert_bit(byte: u8, bit: u8)
    by (bit_vector)
    requires
        bit == 0x01u8 || bit == 0x80u8,
        byte & bit == 0u8,
    ensures
        (byte | bit) == byte + bit,
{
}

/// The sign rule for overflow: both operands have one sign and the result the
/// other, exactly when the signed sum leaves the range of a byte.
proof fn lemma_sign_rule(a: u8, byte: u8, carry: bool)
    ensures
        ({
            let res = wrap8(a + byte + carry_value(carry));
            overflows(signed(a) + signed(byte) + carry_value(carry)) == ((a >= 0x80) == (byte
                >= 0x80) && (res >= 0x80) != (a >= 0x80))
        }),
{
}

/// Or-ing nothing into a byte leaves it.
proof fn lemma_or_zero(byte: u8)
    by (bit_vector)
    ensures
        byte | 0 == byte,
{
}

/// The complement of a byte is what it lacks to 0xFF.
proof fn lemma_complement(byte: u8)
    by (bit_vector)
    ensures
        byte ^ 0xFF == 0xFF - byte,
{
}

/// Subtraction is addition of the complement: for every accumulator, operand
/// and carry, SBC gives the state that ADC gives for the operand with all its
/// bits turned.
pub proof fn sbc_is_adc_of_complement<B: IoMap>(state: State<B>, byte: u8)
    ensures
        state.sbc(byte) == state.adc(byte ^ 0xFF),
{
    lemma_complement(byte);
}

/// Whether an addition of `a` and `byte` that gave `res` overflowed as a signed
/// addition, read off the sign bits.
pub fn overflow_adc(a: u8, byte: u8, res: u8) -> (v: bool)
    ensures
        v == ((a >= 0x80) == (byte >= 0x80) && (res >= 0x80) != (a >= 0x80)),
{
    proof {
        assert(((a ^ res) & (byte ^ res) & 0x80 != 0) == ((a >= 0x80) == (byte >= 0x80) && (res
            >= 0x80) != (a >= 0x80))) by (bit_vector);
    }
    (a ^ res) & (byte ^ res) & 0x80 != 0
}

/// The overflow flag after ARR: bit 6 of the result differs from bit 5.
pub fn overflow_arr(res: u8) -> (v: bool)
    ensures
        v == (any_bit(res, 0x40) != any_bit(res, 0x20)),
{
    proof {
        assert((((res >> 6) ^ (res >> 5)) & 0x01 != 0) == ((res & 0x40 != 0) != (res & 0x20
            != 0))) by (bit_vector);
    }
    ((res >> 6) ^ (res >> 5)) & 0x01 != 0
}

/// Reads a byte as two's complement.
pub fn to_signed(byte: u8) -> (n: i8)
    ensures
        n == signed(byte),
{
    proof {
        assert(byte >= 0x80 ==> (byte as i8) == byte - 0x100) by (bit_vector);
        assert(byte < 0x80 ==> (byte as i8) == byte) by (bit_vector);
    }
    byte as i8
}

/// Whether `byte` has a bit of `mask` set.
pub fn carry8(byte: u8, mask: u8) -> (c: bool)
    ensures
        c == any_bit(byte, mask),
{
    byte & mask != 0
}

impl<B: IoMap> State<B> {
    /// This state with other flags.
    pub open spec fn with_flags(self, flags: Flags) -> Self {
        State { flags, ..self }
    }

    /// This state with zero and negative taken from `value`.
    pub open spec fn with_zn(self, value: u8) -> Self {
        self.with_flags(self.flags.with_zn(value))
    }

    /// A takes the operand.
    pub open spec fn lda(self, byte: u8) -> Self {
        State { a: byte, ..self.with_zn(byte) }
    }

    /// X takes the operand.
    pub open spec fn ldx(self, byte: u8) -> Self {
        State { x: byte, ..self.with_zn(byte) }
    }

    /// Y takes the operand.
    pub open spec fn ldy(self, byte: u8) -> Self {
        State { y: byte, ..self.with_zn(byte) }
    }

    /// X takes A.
    pub open spec fn tax(self) -> Self {
        self.ldx(self.a)
    }

    /// Y takes A.
    pub open spec fn tay(self) -> Self {
        self.ldy(self.a)
    }

    /// A takes X.
    pub open spec fn txa(self) -> Self {
        self.lda(self.x)
    }

    /// A takes Y.
    pub open spec fn tya(self) -> Self {
        self.lda(self.y)
    }

    /// X takes the stack pointer.
    pub open spec fn tsx(self) -> Self {
        self.ldx(self.s)
    }

    /// The stack pointer takes X; no flag changes.
    pub open spec fn txs(self) -> Self {
        State { s: self.x, ..self }
    }

    /// The program counter takes the target.
    pub open spec fn jmp(self, target: u16) -> Self {
        State { pc: target, ..self }
    }

    /// Pushes the address of the last byte of the calling instruction, which is
    /// one below the program counter, and jumps.
    pub open spec fn jsr(self, target: u16) -> Self {
        State { pc: target, ..self.pushed16(wrap16(self.pc - 1)) }
    }

    /// Pops an address and goes on one above it.
    pub open spec fn rts(self) -> Self {
        State { pc: wrap16(self.top16() + 1), ..self.popped16() }
    }

    /// Pushes the program counter plus one and the status byte with Break set,
    /// disables interrupts and goes on at the address in the interrupt vector.
    pub open spec fn brk(self) -> Self {
        let pushed = self.pushed16(wrap16(self.pc + 1)).pushed8(self.flags.packed() | B);
        State {
            pc: pushed.peek_word(IRQ_VECTOR),
            flags: Flags { i: true, ..self.flags },
            ..pushed
        }
    }

    /// Pops the status byte, then the program counter, which is taken as it is.
    pub open spec fn rti(self) -> Self {
        let popped = self.popped8();
        State { pc: popped.top16(), flags: Flags::unpacked(self.top8()), ..popped.popped16() }
    }

    /// A, the operand and the carry are added. Carry is what does not fit the
    /// byte; overflow says that the sum, read as signed, does not fit either.
    pub open spec fn adc(self, byte: u8) -> Self {
        let carry = carry_value(self.flags.c);
        let sum = self.a + byte + carry;
        let flags = Flags {
            c: sum > 0xFF,
            v: overflows(signed(self.a) + signed(byte) + carry),
            ..self.flags
        };
        State { a: wrap8(sum), ..self.with_flags(flags.with_zn(wrap8(sum))) }
    }

    /// The operand and the borrow, which is the carry negated, are taken from A.
    /// Carry is set when nothing had to be borrowed.
    pub open spec fn sbc(self, byte: u8) -> Self {
        let borrow = 1 - carry_value(self.flags.c);
        let diff = self.a - byte - borrow;
        let flags = Flags {
            c: diff >= 0,
            v: overflows(signed(self.a) - signed(byte) - borrow),
            ..self.flags
        };
        State { a: wrap8(diff), ..self.with_flags(flags.with_zn(wrap8(diff))) }
    }

    /// A keeps the bits that the operand has too.
    pub open spec fn and(self, byte: u8) -> Self {
        self.lda(self.a & byte)
    }

    /// A gains the bits of the operand.
    pub open spec fn ora(self, byte: u8) -> Self {
        self.lda(self.a | byte)
    }

    /// A turns the bits that the operand has.
    pub open spec fn eor(self, byte: u8) -> Self {
        self.lda(self.a ^ byte)
    }

    /// Zero says whether A and the operand share no bit; negative and overflow
    /// are bits 7 and 6 of the operand.
    pub open spec fn bit(self, byte: u8) -> Self {
        self.with_flags(
            Flags {
                z: self.a & byte == 0,
                n: byte >= 0x80,
                v: any_bit(byte, 0x40),
                ..self.flags
            },
        )
    }

    /// The flags after `byte` was taken from `register`: carry says that
    /// nothing was borrowed, zero and negative describe the difference. No
    /// register changes.
    pub open spec fn compared(self, register: u8, byte: u8) -> Self {
        self.with_flags(Flags { c: register >= byte, ..self.flags }.with_zn(wrap8(register - byte)))
    }

    /// Compares A with the operand.
    pub open spec fn cmp(self, byte: u8) -> Self {
        self.compared(self.a, byte)
    }

    /// Compares X with the operand.
    pub open spec fn cpx(self, byte: u8) -> Self {
        self.compared(self.x, byte)
    }

    /// Compares Y with the operand.
    pub open spec fn cpy(self, byte: u8) -> Self {
        self.compared(self.y, byte)
    }

    /// Clears carry.
    pub open spec fn clc(self) -> Self {
        self.with_flags(Flags { c: false, ..self.flags })
    }

    /// Sets carry.
    pub open spec fn sec(self) -> Self {
        self.with_flags(Flags { c: true, ..self.flags })
    }

    /// Clears interrupt disable.
    pub open spec fn cli(self) -> Self {
        self.with_flags(Flags { i: false, ..self.flags })
    }

    /// Sets interrupt disable.
    pub open spec fn sei(self) -> Self {
        self.with_flags(Flags { i: true, ..self.flags })
    }

    /// Clears overflow.
    pub open spec fn clv(self) -> Self {
        self.with_flags(Flags { v: false, ..self.flags })
    }

    /// Clears decimal.
    pub open spec fn cld(self) -> Self {
        self.with_flags(Flags { d: false, ..self.flags })
    }

    /// Sets decimal.
    pub open spec fn sed(self) -> Self {
        self.with_flags(Flags { d: true, ..self.flags })
    }

    /// The program counter moves by `offset` where the branch is taken.
    pub open spec fn branched(self, taken: bool, offset: i8) -> Self {
        if taken {
            State { pc: wrap16(self.pc + offset), ..self }
        } else {
            self
        }
    }

    /// Branches where negative is clear.
    pub open spec fn bpl(self, offset: i8) -> Self {
        self.branched(!self.flags.n, offset)
    }

    /// Branches where negative is set.
    pub open spec fn bmi(self, offset: i8) -> Self {
        self.branched(self.flags.n, offset)
    }

    /// Branches where overflow is clear.
    pub open spec fn bvc(self, offset: i8) -> Self {
        self.branched(!self.flags.v, offset)
    }

    /// Branches where overflow is set.
    pub open spec fn bvs(self, offset: i8) -> Self {
        self.branched(self.flags.v, offset)
    }

    /// Branches where carry is clear.
    pub open spec fn bcc(self, offset: i8) -> Self {
        self.branched(!self.flags.c, offset)
    }

    /// Branches where carry is set.
    pub open spec fn bcs(self, offset: i8) -> Self {
        self.branched(self.flags.c, offset)
    }

    /// Branches where zero is clear.
    pub open spec fn bne(self, offset: i8) -> Self {
        self.branched(!self.flags.z, offset)
    }

    /// Branches where zero is set.
    pub open spec fn beq(self, offset: i8) -> Self {
        self.branched(self.flags.z, offset)
    }

    /// The flags after a shift or rotation that turned `byte` into `res`,
    /// where `out` is the bit that dropped out.
    pub open spec fn shifted(self, out: bool, res: u8) -> Self {
        self.with_flags(Flags { c: out, ..self.flags }.with_zn(res))
    }

    /// The flags after a shift of the operand to the left.
    pub open spec fn asl(self, byte: u8) -> Self {
        self.shifted(byte >= 0x80, shifted_left(byte))
    }

    /// The flags after a shift of the operand to the right.
    pub open spec fn lsr(self, byte: u8) -> Self {
        self.shifted(byte % 2 == 1, shifted_right(byte))
    }

    /// The flags after a rotation of the operand to the left through carry.
    pub open spec fn rol(self, byte: u8) -> Self {
        self.shifted(byte >= 0x80, rotated_left(byte, self.flags.c))
    }

    /// The flags after a rotation of the operand to the right through carry.
    pub open spec fn ror(self, byte: u8) -> Self {
        self.shifted(byte % 2 == 1, rotated_right(byte, self.flags.c))
    }

    /// The flags after the operand was decremented.
    pub open spec fn dec(self, byte: u8) -> Self {
        self.with_zn(wrap8(byte - 1))
    }

    /// The flags after the operand was incremented.
    pub open spec fn inc(self, byte: u8) -> Self {
        self.with_zn(wrap8(byte + 1))
    }

    /// X goes down by one, modulo 2^8.
    pub open spec fn dex(self) -> Self {
        self.ldx(wrap8(self.x - 1))
    }

    /// Y goes down by one, modulo 2^8.
    pub open spec fn dey(self) -> Self {
        self.ldy(wrap8(self.y - 1))
    }

    /// X goes up by one, modulo 2^8.
    pub open spec fn inx(self) -> Self {
        self.ldx(wrap8(self.x + 1))
    }

    /// Y goes up by one, modulo 2^8.
    pub open spec fn iny(self) -> Self {
        self.ldy(wrap8(self.y + 1))
    }

    /// Pushes A.
    pub open spec fn pha(self) -> Self {
        self.pushed8(self.a)
    }

    /// Pops A, and sets zero and negative from it.
    pub open spec fn pla(self) -> Self {
        self.popped8().lda(self.top8())
    }

    /// Pushes the status byte with Break set. The flags do not change.
    pub open spec fn php(self) -> Self {
        self.pushed8(self.flags.packed() | B)
    }

    /// Pops the status byte. Its bits 4 and 5 are dropped.
    pub open spec fn plp(self) -> Self {
        self.popped8().with_flags(Flags::unpacked(self.top8()))
    }

    /// AND, with carry taking bit 7 of the result.
    pub open spec fn anc(self, byte: u8) -> Self {
        let res = self.a & byte;
        State { a: res, ..self.shifted(res >= 0x80, res) }
    }

    /// A takes the bits that A or 0xEE, X and the operand all have.
    pub open spec fn ane(self, byte: u8) -> Self {
        self.lda((self.a | 0xEE) & self.x & byte)
    }

    /// AND, then a rotation to the right. Carry takes bit 6 of the result, and
    /// overflow says whether bits 6 and 5 differ.
    pub open spec fn arr(self, byte: u8) -> Self {
        let res = rotated_right(self.a & byte, self.flags.c);
        let flags = Flags {
            c: any_bit(res, 0x40),
            v: any_bit(res, 0x40) != any_bit(res, 0x20),
            ..self.flags.with_zn(res)
        };
        State { a: res, ..self.with_flags(flags) }
    }

    /// AND, then a shift to the right.
    pub open spec fn asr(self, byte: u8) -> Self {
        let masked = self.a & byte;
        State { a: shifted_right(masked), ..self.lsr(masked) }
    }

    /// Decrements the operand and compares A with the result.
    pub open spec fn dcp(self, byte: u8) -> Self {
        self.compared(self.a, wrap8(byte - 1))
    }

    /// Increments the operand and subtracts the result from A.
    pub open spec fn isb(self, byte: u8) -> Self {
        self.sbc(wrap8(byte + 1))
    }

    /// A, X and the stack pointer all take the operand masked by the stack pointer.
    pub open spec fn las(self, byte: u8) -> Self {
        let res = self.s & byte;
        State { a: res, x: res, s: res, ..self.with_zn(res) }
    }

    /// A and X take the operand.
    pub open spec fn lax(self, byte: u8) -> Self {
        State { a: byte, x: byte, ..self.with_zn(byte) }
    }

    /// A and X take the operand.
    pub open spec fn lxa(self, byte: u8) -> Self {
        self.lax(byte)
    }

    /// Rotates the operand to the left and ANDs the result into A.
    pub open spec fn rla(self, byte: u8) -> Self {
        let res = self.a & rotated_left(byte, self.flags.c);
        State { a: res, ..self.shifted(byte >= 0x80, res) }
    }

    /// Rotates the operand to the right and adds the result to A, with the bit
    /// that dropped out as the carry.
    pub open spec fn rra(self, byte: u8) -> Self {
        self.with_flags(Flags { c: byte % 2 == 1, ..self.flags }).adc(
            rotated_right(byte, self.flags.c),
        )
    }

    /// X takes A AND X less the operand, with the flags of a comparison.
    pub open spec fn sbx(self, byte: u8) -> Self {
        State { x: wrap8((self.a & self.x) - byte), ..self.compared(self.a & self.x, byte) }
    }

    /// Shifts the operand to the left and ORs the result into A.
    pub open spec fn slo(self, byte: u8) -> Self {
        let res = self.a | shifted_left(byte);
        State { a: res, ..self.shifted(byte >= 0x80, res) }
    }

    /// Shifts the operand to the right and XORs the result into A.
    pub open spec fn sre(self, byte: u8) -> Self {
        let res = self.a ^ shifted_right(byte);
        State { a: res, ..self.shifted(byte % 2 == 1, res) }
    }

    /// The processor stops.
    pub open spec fn jam(self) -> Self {
        State { halted: true, ..self }
    }
}

/// What ADC leaves: the accumulator holds the sum modulo 2^8, carry says that
/// the sum did not fit, zero and negative describe the accumulator, and
/// overflow is set exactly when both operands have one sign and the result
/// the other.
pub proof fn adc_sets_flags_by_the_sum<B: IoMap>(state: State<B>, byte: u8)
    ensures
        ({
            let sum = state.a + byte + carry_value(state.flags.c);
            let after = state.adc(byte);
            &&& after.a == sum % 0x100
            &&& after.flags.c == (sum >= 0x100)
            &&& after.flags.z == (after.a == 0)
            &&& after.flags.n == (after.a >= 0x80)
            &&& after.flags.v == ((state.a >= 0x80) == (byte >= 0x80) && (after.a >= 0x80) != (
            state.a >= 0x80))
            &&& after.flags.d == state.flags.d
            &&& after.flags.i == state.flags.i
        }),
{
    lemma_sign_rule(state.a, byte, state.flags.c);
}

/// A comparison changes no register, and its carry says that the register is
/// not below the operand.
pub proof fn comparison_orders<B: IoMap>(state: State<B>, register: u8, byte: u8)
    ensures
        ({
            let after = state.compared(register, byte);
            &&& after.flags.c == (register >= byte)
            &&& after.flags.z == (register == byte)
            &&& after == state.with_flags(after.flags)
        }),
{
}

/// RTS after JSR goes on at the instruction that follows the JSR, whatever
/// the target and wherever the JSR stood: nothing but memory has changed.
#[verifier::rlimit(40)]
pub proof fn rts_undoes_jsr<B: IoMap>(state: State<B>, target: u16)
    requires
        stack_is_ram::<B>(),
    ensures
        state.jsr(target).pc == target,
        state.jsr(target).rts() == (State { mem: state.jsr(target).mem, ..state }),
{
    let back = wrap16(state.pc - 1);
    let none = Seq::<u8>::empty();
    let first = state.pushed8(hi(back));
    let second = first.pushed8(lo(back));
    assert(state.holds_stack(none));
    push_keeps_stack(state, none, hi(back));
    push_keeps_stack(first, none.push(hi(back)), lo(back));
    let called = State { pc: target, ..second };
    assert(called == state.jsr(target));
    let items = none.push(hi(back)).push(lo(back));
    assert(called.holds_stack(items));
    pop_returns_last_pushed(called, items);
    pop_returns_last_pushed(called.popped8(), items.drop_last());
}

/// What BRK leaves on a stack with room for three bytes: the program counter
/// plus one, high byte first, and above it the status byte with Break set.
/// Interrupts are disabled, no other flag changes, and the program counter is
/// the word at the interrupt vector.
pub proof fn brk_pushes_return_and_status<B: IoMap>(state: State<B>, items: Seq<u8>)
    requires
        stack_is_ram::<B>(),
        state.holds_stack(items),
        items.len() + 3 <= 0x100,
    ensures
        ({
            let after = state.brk();
            let back = wrap16(state.pc + 1);
            &&& after.holds_stack(
                items.push(hi(back)).push(lo(back)).push(state.flags.packed() | B),
            )
            &&& after.s == wrap8(state.s - 3)
            &&& after.flags == (Flags { i: true, ..state.flags })
            &&& after.pc == after.peek_word(IRQ_VECTOR)
            &&& after.a == state.a && after.x == state.x && after.y == state.y
            &&& after.halted == state.halted
        }),
{
    let back = wrap16(state.pc + 1);
    let first = state.pushed8(hi(back));
    let second = first.pushed8(lo(back));
    push_keeps_stack(state, items, hi(back));
    push_keeps_stack(first, items.push(hi(back)), lo(back));
    push_keeps_stack(second, items.push(hi(back)).push(lo(back)), state.flags.packed() | B);
}

/// RTI after BRK goes on two bytes after the BRK opcode, with the flags that
/// BRK found: the Break bit of the pushed status byte stands for nothing.
#[verifier::rlimit(40)]
pub proof fn rti_undoes_brk<B: IoMap>(state: State<B>)
    requires
        stack_is_ram::<B>(),
    ensures
        state.brk().rti() == (State {
            pc: wrap16(state.pc + 1),
            mem: state.brk().mem,
            ..state
        }),
{
    let back = wrap16(state.pc + 1);
    let none = Seq::<u8>::empty();
    assert(state.holds_stack(none));
    brk_pushes_return_and_status(state, none);
    let after = state.brk();
    let items = none.push(hi(back)).push(lo(back)).push(state.flags.packed() | B);
    pop_returns_last_pushed(after, items);
    pop_returns_last_pushed(after.popped8(), items.drop_last());
    pop_returns_last_pushed(after.popped8().popped8(), items.drop_last().drop_last());
    unpack_inverts_pack_with_break(state.flags);
}

/// PLP after PHP leaves the registers and flags as they were.
pub proof fn plp_undoes_php<B: IoMap>(state: State<B>)
    requires
        stack_is_ram::<B>(),
    ensures
        state.php().plp() == (State { mem: state.php().mem, ..state }),
{
    let none = Seq::<u8>::empty();
    assert(state.holds_stack(none));
    push_keeps_stack(state, none, state.flags.packed() | B);
    pop_returns_last_pushed(state.php(), none.push(state.flags.packed() | B));
    unpack_inverts_pack_with_break(state.flags);
}

/// PLA after PHA leaves the accumulator as it was, and sets zero and negative
/// from it.
pub proof fn pla_undoes_pha<B: IoMap>(state: State<B>)
    requires
        stack_is_ram::<B>(),
    ensures
        state.pha().pla() == (State { mem: state.pha().mem, ..state.with_zn(state.a) }),
{
    let none = Seq::<u8>::empty();
    assert(state.holds_stack(none));
    push_keeps_stack(state, none, state.a);
    pop_returns_last_pushed(state.pha(), none.push(state.a));
}

/// The operations of the processor, each with what it does to the state. One
/// that works on a byte of memory takes the byte as it was read; one that
/// gives a byte for memory returns it, and leaves the write to the caller.
pub trait Instruction {
    /// The bus that the processor drives.
    type Bus: IoMap;

    /// All that the operations work on: the registers and the bus.
    spec fn model(&self) -> State<Self::Bus>;

    /// LoaD Accumulator
    fn lda(&mut self, byte: u8)
        ensures
            final(self).model() == old(self).model().lda(byte),
    ;

    /// LoaD X register
    fn ldx(&mut self, byte: u8)
        ensures
            final(self).model() == old(self).model().ldx(byte),
    ;

    /// LoaD Y register
    fn ldy(&mut self, byte: u8)
        ensures
            final(self).model() == old(self).model().ldy(byte),
    ;

    /// STore Accumulator
    fn sta(&mut self) -> (byte: u8)
        ensures
            byte == old(self).model().a,
            final(self).model() == old(self).model(),
    ;

    /// STore X register
    fn stx(&mut self) -> (byte: u8)
        ensures
            byte == old(self).model().x,
            final(self).model() == old(self).model(),
    ;

    /// STore Y register
    fn sty(&mut self) -> (byte: u8)
        ensures
            byte == old(self).model().y,
            final(self).model() == old(self).model(),
    ;

    /// Transfer A to X
    fn tax(&mut self)
        ensures
            final(self).model() == old(self).model().tax(),
    ;

    /// Transfer X to A
    fn txa(&mut self)
        ensures
            final(self).model() == old(self).model().txa(),
    ;

    /// Transfer A to Y
    fn tay(&mut self)
        ensures
            final(self).model() == old(self).model().tay(),
    ;

    /// Transfer Y to A
    fn tya(&mut self)
        ensures
            final(self).model() == old(self).model().tya(),
    ;

    /// Transfer Stack pointer to X
    fn tsx(&mut self)
        ensures
            final(self).model() == old(self).model().tsx(),
    ;

    /// Transfer X to Stack pointer
    fn txs(&mut self)
        ensures
            final(self).model() == old(self).model().txs(),
    ;

    /// JuMP
    fn jmp(&mut self, target: u16)
        ensures
            final(self).model() == old(self).model().jmp(target),
    ;

    /// Jump to SubRoutine
    fn jsr(&mut self, target: u16)
        ensures
            final(self).model() == old(self).model().jsr(target),
    ;

    /// ReTurn from Subroutine
    fn rts(&mut self)
        ensures
            final(self).model() == old(self).model().rts(),
    ;

    /// BReaK
    fn brk(&mut self)
        ensures
            final(self).model() == old(self).model().brk(),
    ;

    /// ReTurn from Interrupt
    fn rti(&mut self)
        ensures
            final(self).model() == old(self).model().rti(),
    ;

    /// ADd with Carry
    fn adc(&mut self, byte: u8)
        ensures
            final(self).model() == old(self).model().adc(byte),
    ;

    /// SuBtract with Carry
    fn sbc(&mut self, byte: u8)
        ensures
            final(self).model() == old(self).model().sbc(byte),
    ;

    /// bitwise AND with accumulator
    fn and(&mut self, byte: u8)
        ensures
            final(self).model() == old(self).model().and(byte),
    ;

    /// bitwise OR with Accumulator
    fn ora(&mut self, byte: u8)
        ensures
            final(self).model() == old(self).model().ora(byte),
    ;

    /// bitwise Exclusive OR
    fn eor(&mut self, byte: u8)
        ensures
            final(self).model() == old(self).model().eor(byte),
    ;

    /// test BITs
    fn bit(&mut self, byte: u8)
        ensures
            final(self).model() == old(self).model().bit(byte),
    ;

    /// CoMPare accumulator
    fn cmp(&mut self, byte: u8)
        ensures
            final(self).model() == old(self).model().cmp(byte),
    ;

    /// ComPare X register
    fn cpx(&mut self, byte: u8)
        ensures
            final(self).model() == old(self).model().cpx(byte),
    ;

    /// ComPare Y register
    fn cpy(&mut self, byte: u8)
        ensures
            final(self).model() == old(self).model().cpy(byte),
    ;

    /// CLear Carry
    fn clc(&mut self)
        ensures
            final(self).model() == old(self).model().clc(),
    ;

    /// SEt Carry
    fn sec(&mut self)
        ensures
            final(self).model() == old(self).model().sec(),
    ;

    /// SEt Interrupt disable
    fn sei(&mut self)
        ensures
            final(self).model() == old(self).model().sei(),
    ;

    /// CLear Interrupt disable
    fn cli(&mut self)
        ensures
            final(self).model() == old(self).model().cli(),
    ;

    /// CLear oVerflow
    fn clv(&mut self)
        ensures
            final(self).model() == old(self).model().clv(),
    ;

    /// CLear Decimal
    fn cld(&mut self)
        ensures
            final(self).model() == old(self).model().cld(),
    ;

    /// SEt Decimal
    fn sed(&mut self)
        ensures
            final(self).model() == old(self).model().sed(),
    ;

    /// Branch on PLus
    fn bpl(&mut self, offset: i8)
        ensures
            final(self).model() == old(self).model().bpl(offset),
    ;

    /// Branch on MInus
    fn bmi(&mut self, offset: i8)
        ensures
            final(self).model() == old(self).model().bmi(offset),
    ;

    /// Branch on oVerflow Clear
    fn bvc(&mut self, offset: i8)
        ensures
            final(self).model() == old(self).model().bvc(offset),
    ;

    /// Branch on oVerflow Set
    fn bvs(&mut self, offset: i8)
        ensures
            final(self).model() == old(self).model().bvs(offset),
    ;

    /// Branch on Carry Clear
    fn bcc(&mut self, offset: i8)
        ensures
            final(self).model() == old(self).model().bcc(offset),
    ;

    /// Branch on Carry Set
    fn bcs(&mut self, offset: i8)
        ensures
            final(self).model() == old(self).model().bcs(offset),
    ;

    /// Branch on EQual
    fn beq(&mut self, offset: i8)
        ensures
            final(self).model() == old(self).model().beq(offset),
    ;

    /// Branch on Not Equal
    fn bne(&mut self, offset: i8)
        ensures
            final(self).model() == old(self).model().bne(offset),
    ;

    /// Arithmetic Shift Left
    fn asl(&mut self, byte: u8) -> (res: u8)
        ensures
            res == shifted_left(byte),
            final(self).model() == old(self).model().asl(byte),
    ;

    /// Logical Shift Right
    fn lsr(&mut self, byte: u8) -> (res: u8)
        ensures
            res == shifted_right(byte),
            final(self).model() == old(self).model().lsr(byte),
    ;

    /// ROtate Left
    fn rol(&mut self, byte: u8) -> (res: u8)
        ensures
            res == rotated_left(byte, old(self).model().flags.c),
            final(self).model() == old(self).model().rol(byte),
    ;

    /// ROtate Right
    fn ror(&mut self, byte: u8) -> (res: u8)
        ensures
            res == rotated_right(byte, old(self).model().flags.c),
            final(self).model() == old(self).model().ror(byte),
    ;

    /// DECrement memory
    fn dec(&mut self, byte: u8) -> (res: u8)
        ensures
            res == wrap8(byte - 1),
            final(self).model() == old(self).model().dec(byte),
    ;

    /// INCrement memory
    fn inc(&mut self, byte: u8) -> (res: u8)
        ensures
            res == wrap8(byte + 1),
            final(self).model() == old(self).model().inc(byte),
    ;

    /// DEcrement X
    fn dex(&mut self)
        ensures
            final(self).model() == old(self).model().dex(),
    ;

    /// INcrement X
    fn inx(&mut self)
        ensures
            final(self).model() == old(self).model().inx(),
    ;

    /// DEcrement Y
    fn dey(&mut self)
        ensures
            final(self).model() == old(self).model().dey(),
    ;

    /// INcrement Y
    fn iny(&mut self)
        ensures
            final(self).model() == old(self).model().iny(),
    ;

    /// PusH Accumulator
    fn pha(&mut self)
        ensures
            final(self).model() == old(self).model().pha(),
    ;

    /// PuLl Accumulator
    fn pla(&mut self)
        ensures
            final(self).model() == old(self).model().pla(),
    ;

    /// PusH Processor status
    fn php(&mut self)
        ensures
            final(self).model() == old(self).model().php(),
    ;

    /// PuLl Processor status
    fn plp(&mut self)
        ensures
            final(self).model() == old(self).model().plp(),
    ;

    /// AND, then carry from bit 7
    fn anc(&mut self, byte: u8)
        ensures
            final(self).model() == old(self).model().anc(byte),
    ;

    /// AND of A, X and the operand
    fn ane(&mut self, byte: u8)
        ensures
            final(self).model() == old(self).model().ane(byte),
    ;

    /// AND, then Rotate Right
    fn arr(&mut self, byte: u8)
        ensures
            final(self).model() == old(self).model().arr(byte),
    ;

    /// AND, then Shift Right
    fn asr(&mut self, byte: u8)
        ensures
            final(self).model() == old(self).model().asr(byte),
    ;

    /// DeCrement memory, then comPare
    fn dcp(&mut self, byte: u8) -> (res: u8)
        ensures
            res == wrap8(byte - 1),
            final(self).model() == old(self).model().dcp(byte),
    ;

    /// Increment memory, then SuBtract
    fn isb(&mut self, byte: u8) -> (res: u8)
        ensures
            res == wrap8(byte + 1),
            final(self).model() == old(self).model().isb(byte),
    ;

    /// Load A, X and Stack pointer
    fn las(&mut self, byte: u8)
        ensures
            final(self).model() == old(self).model().las(byte),
    ;

    /// Load A and X
    fn lax(&mut self, byte: u8)
        ensures
            final(self).model() == old(self).model().lax(byte),
    ;

    /// Load A and X, immediate
    fn lxa(&mut self, byte: u8)
        ensures
            final(self).model() == old(self).model().lxa(byte),
    ;

    /// Rotate Left, then And
    fn rla(&mut self, byte: u8) -> (res: u8)
        ensures
            res == rotated_left(byte, old(self).model().flags.c),
            final(self).model() == old(self).model().rla(byte),
    ;

    /// Rotate Right, then Add
    fn rra(&mut self, byte: u8) -> (res: u8)
        ensures
            res == rotated_right(byte, old(self).model().flags.c),
            final(self).model() == old(self).model().rra(byte),
    ;

    /// Store A and X
    fn sax(&mut self) -> (byte: u8)
        ensures
            byte == old(self).model().a & old(self).model().x,
            final(self).model() == old(self).model(),
    ;

    /// SuBtract from A and X
    fn sbx(&mut self, byte: u8)
        ensures
            final(self).model() == old(self).model().sbx(byte),
    ;

    /// Store High address and A and X
    ///
    /// The hardware does not settle what this stores: nothing is done.
    fn sha(&mut self) -> (res: Result<u8, CpuFault>)
        ensures
            res == Err::<u8, CpuFault>(CpuFault::Unstable),
            final(self).model() == old(self).model(),
    ;

    /// Store High address and Stack pointer
    ///
    /// The hardware does not settle what this stores: nothing is done.
    fn shs(&mut self) -> (res: Result<u8, CpuFault>)
        ensures
            res == Err::<u8, CpuFault>(CpuFault::Unstable),
            final(self).model() == old(self).model(),
    ;

    /// Store High address and X
    ///
    /// The hardware does not settle what this stores: nothing is done.
    fn shx(&mut self) -> (res: Result<u8, CpuFault>)
        ensures
            res == Err::<u8, CpuFault>(CpuFault::Unstable),
            final(self).model() == old(self).model(),
    ;

    /// Store High address and Y
    ///
    /// The hardware does not settle what this stores: nothing is done.
    fn shy(&mut self) -> (res: Result<u8, CpuFault>)
        ensures
            res == Err::<u8, CpuFault>(CpuFault::Unstable),
            final(self).model() == old(self).model(),
    ;

    /// Shift Left, then Or
    fn slo(&mut self, byte: u8) -> (res: u8)
        ensures
            res == shifted_left(byte),
            final(self).model() == old(self).model().slo(byte),
    ;

    /// Shift Right, then Exclusive or
    fn sre(&mut self, byte: u8) -> (res: u8)
        ensures
            res == shifted_right(byte),
            final(self).model() == old(self).model().sre(byte),
    ;

    /// Double-byte no OPeration
    fn dop(&mut self, byte: u8)
        ensures
            final(self).model() == old(self).model(),
    ;

    /// Triple-byte no OPeration
    fn top(&mut self)
        ensures
            final(self).model() == old(self).model(),
    ;

    /// halts the processor
    fn jam(&mut self)
        ensures
            final(self).model() == old(self).model().jam(),
    ;

    /// No OPeration
    fn nop(&mut self)
        ensures
            final(self).model() == old(self).model(),
    ;
}

impl<B: IoMap> Instruction for Cpu<B> {
    type Bus = B;

    open spec fn model(&self) -> State<B> {
        self@
    }

    fn lda(&mut self, byte: u8) {
        self.a = self.flags.set_zn(byte);
    }

    fn ldx(&mut self, byte: u8) {
        self.x = self.flags.set_zn(byte);
    }

    fn ldy(&mut self, byte: u8) {
        self.y = self.flags.set_zn(byte);
    }

    fn sta(&mut self) -> (byte: u8) {
        self.a
    }

    fn stx(&mut self) -> (byte: u8) {
        self.x
    }

    fn sty(&mut self) -> (byte: u8) {
        self.y
    }

    fn tax(&mut self) {
        self.x = self.flags.set_zn(self.a);
    }

    fn tay(&mut self) {
        self.y = self.flags.set_zn(self.a);
    }

    fn txa(&mut self) {
        self.a = self.flags.set_zn(self.x);
    }

    fn tya(&mut self) {
        self.a = self.flags.set_zn(self.y);
    }

    fn tsx(&mut self) {
        self.x = self.flags.set_zn(self.s);
    }

    fn txs(&mut self) {
        self.s = self.x;
    }

    fn jmp(&mut self, target: u16) {
        self.pc = target;
    }

    #[verifier::rlimit(40)]
    fn jsr(&mut self, target: u16) {
        let addr = self.pc.wrapping_sub(1);
        self.push16(addr);
        self.pc = target;
    }

    #[verifier::rlimit(40)]
    fn rts(&mut self) {
        let addr = self.pop16().wrapping_add(1);
        self.pc = addr;
    }

    #[verifier::rlimit(40)]
    fn brk(&mut self) {
        self.push16(self.pc.wrapping_add(1));
        self.push8(self.flags.pack() | B);
        self.flags.i = true;
        self.pc = self.peek16(IRQ_VECTOR);
    }

    #[verifier::rlimit(40)]
    fn rti(&mut self) {
        let byte = self.pop8();
        self.flags.unpack(byte);
        self.pc = self.pop16();
    }

    fn adc(&mut self, byte: u8) {
        let carry: u16 = if self.flags.c { 1 } else { 0 };
        let sum: u16 = self.a as u16 + byte as u16 + carry;
        let res: u8 = (sum % 0x100) as u8;
        proof {
            lemma_sign_rule(self.a, byte, self.flags.c);
        }
        self.flags.v = overflow_adc(self.a, byte, res);
        self.flags.c = sum > 0xFF;
        self.a = self.flags.set_zn(res);
    }

    fn sbc(&mut self, byte: u8) {
        proof {
            sbc_is_adc_of_complement(self@, byte);
        }
        self.adc(byte ^ 0xFF)
    }

    fn and(&mut self, byte: u8) {
        let byte = self.a & byte;
        self.a = self.flags.set_zn(byte);
    }

    fn ora(&mut self, byte: u8) {
        let byte = self.a | byte;
        self.a = self.flags.set_zn(byte);
    }

    fn eor(&mut self, byte: u8) {
        let byte = self.a ^ byte;
        self.a = self.flags.set_zn(byte);
    }

    fn bit(&mut self, byte: u8) {
        proof {
            lemma_byte_bits(byte);
        }
        self.flags.z = self.a & byte == 0;
        self.flags.n = carry8(byte, 0x80);
        self.flags.v = carry8(byte, 0x40);
    }

    fn cmp(&mut self, byte: u8) {
        self.flags.c = self.a >= byte;
        self.flags.set_zn(self.a.wrapping_sub(byte));
    }

    fn cpx(&mut self, byte: u8) {
        self.flags.c = self.x >= byte;
        self.flags.set_zn(self.x.wrapping_sub(byte));
    }

    fn cpy(&mut self, byte: u8) {
        self.flags.c = self.y >= byte;
        self.flags.set_zn(self.y.wrapping_sub(byte));
    }

    fn clc(&mut self) {
        self.flags.c = false;
    }

    fn sec(&mut self) {
        self.flags.c = true;
    }

    fn cli(&mut self) {
        self.flags.i = false;
    }

    fn sei(&mut self) {
        self.flags.i = true;
    }

    fn clv(&mut self) {
        self.flags.v = false;
    }

    fn cld(&mut self) {
        self.flags.d = false;
    }

    fn sed(&mut self) {
        self.flags.d = true;
    }

    fn bpl(&mut self, offset: i8) {
        if !self.flags.n {
            self.pc = self.pc.wrapping_add_signed(offset as i16);
        }
    }

    fn bmi(&mut self, offset: i8) {
        if self.flags.n {
            self.pc = self.pc.wrapping_add_signed(offset as i16);
        }
    }

    fn bvc(&mut self, offset: i8) {
        if !self.flags.v {
            self.pc = self.pc.wrapping_add_signed(offset as i16);
        }
    }

    fn bvs(&mut self, offset: i8) {
        if self.flags.v {
            self.pc = self.pc.wrapping_add_signed(offset as i16);
        }
    }

    fn bcc(&mut self, offset: i8) {
        if !self.flags.c {
            self.pc = self.pc.wrapping_add_signed(offset as i16);
        }
    }

    fn bcs(&mut self, offset: i8) {
        if self.flags.c {
            self.pc = self.pc.wrapping_add_signed(offset as i16);
        }
    }

    fn beq(&mut self, offset: i8) {
        if self.flags.z {
            self.pc = self.pc.wrapping_add_signed(offset as i16);
        }
    }

    fn bne(&mut self, offset: i8) {
        if !self.flags.z {
            self.pc = self.pc.wrapping_add_signed(offset as i16);
        }
    }

    fn asl(&mut self, byte: u8) -> (res: u8) {
        proof {
            lemma_byte_bits(byte);
            lemma_shift_left(byte);
        }
        self.flags.c = carry8(byte, 0x80);
        self.flags.set_zn(byte << 1)
    }

    fn lsr(&mut self, byte: u8) -> (res: u8) {
        proof {
            lemma_byte_bits(byte);
        }
        self.flags.c = carry8(byte, 0x01);
        self.flags.set_zn(byte >> 1)
    }

    fn rol(&mut self, byte: u8) -> (res: u8) {
        let c: u8 = if self.flags.c { 0x01 } else { 0 };
        proof {
            lemma_byte_bits(byte);
            lemma_shift_left(byte);
            lemma_or_zero(byte << 1);
            lemma_insert_bit(byte << 1, 0x01);
        }
        self.flags.c = carry8(byte, 0x80);
        self.flags.set_zn(byte << 1 | c)
    }

    fn ror(&mut self, byte: u8) -> (res: u8) {
        let c: u8 = if self.flags.c { 0x80 } else { 0 };
        proof {
            lemma_byte_bits(byte);
            lemma_or_zero(byte >> 1);
            lemma_insert_bit(byte >> 1, 0x80);
        }
        self.flags.c = carry8(byte, 0x01);
        self.flags.set_zn(byte >> 1 | c)
    }

    fn dec(&mut self, byte: u8) -> (res: u8) {
        let byte = byte.wrapping_sub(1);
        self.flags.set_zn(byte)
    }

    fn inc(&mut self, byte: u8) -> (res: u8) {
        let byte = byte.wrapping_add(1);
        self.flags.set_zn(byte)
    }

    fn dex(&mut self) {
        let byte = self.x.wrapping_sub(1);
        self.x = self.flags.set_zn(byte);
    }

    fn dey(&mut self) {
        let byte = self.y.wrapping_sub(1);
        self.y = self.flags.set_zn(byte);
    }

    fn inx(&mut self) {
        let byte = self.x.wrapping_add(1);
        self.x = self.flags.set_zn(byte);
    }

    fn iny(&mut self) {
        let byte = self.y.wrapping_add(1);
        self.y = self.flags.set_zn(byte);
    }

    fn pha(&mut self) {
        let byte = self.a;
        self.push8(byte);
    }

    fn pla(&mut self) {
        let byte = self.pop8();
        self.a = self.flags.set_zn(byte);
    }

    fn php(&mut self) {
        let byte = self.flags.pack() | B;
        self.push8(byte);
    }

    fn plp(&mut self) {
        let byte = self.pop8();
        self.flags.unpack(byte);
    }

    fn anc(&mut self, byte: u8) {
        let byte = self.a & byte;
        proof {
            lemma_byte_bits(byte);
        }
        self.a = self.flags.set_zn(byte);
        self.flags.c = carry8(byte, 0x80);
    }

    fn ane(&mut self, byte: u8) {
        let byte = (self.a | 0xEE) & self.x & byte;
        self.a = self.flags.set_zn(byte);
    }

    fn arr(&mut self, byte: u8) {
        let c: u8 = if self.flags.c { 0x80 } else { 0 };
        let masked = self.a & byte;
        proof {
            lemma_byte_bits(masked);
            lemma_or_zero(masked >> 1);
            lemma_insert_bit(masked >> 1, 0x80);
        }
        let byte = masked >> 1 | c;
        self.a = self.flags.set_zn(byte);
        self.flags.c = carry8(byte, 0x40);
        self.flags.v = overflow_arr(byte);
    }

    fn asr(&mut self, byte: u8) {
        let byte = self.a & byte;
        proof {
            lemma_byte_bits(byte);
        }
        self.flags.c = carry8(byte, 0x01);
        let byte = byte >> 1;
        self.a = self.flags.set_zn(byte);
    }

    fn dcp(&mut self, byte: u8) -> (res: u8) {
        let byte = byte.wrapping_sub(1);
        self.cmp(byte);
        byte
    }

    fn isb(&mut self, byte: u8) -> (res: u8) {
        let byte = byte.wrapping_add(1);
        self.sbc(byte);
        byte
    }

    fn las(&mut self, byte: u8) {
        let byte = self.s & byte;
        self.x = byte;
        self.a = byte;
        self.s = byte;
        self.flags.set_zn(byte);
    }

    fn lax(&mut self, byte: u8) {
        self.a = byte;
        self.x = byte;
        self.flags.set_zn(byte);
    }

    fn lxa(&mut self, byte: u8) {
        self.a = byte;
        self.x = byte;
        self.flags.set_zn(byte);
    }

    fn rla(&mut self, byte: u8) -> (res: u8) {
        let carry: u8 = if self.flags.c { 0x01 } else { 0 };
        proof {
            lemma_byte_bits(byte);
            lemma_shift_left(byte);
            lemma_or_zero(byte << 1);
            lemma_insert_bit(byte << 1, 0x01);
        }
        self.flags.c = carry8(byte, 0x80);
        let byte = byte << 1 | carry;
        self.a = self.flags.set_zn(self.a & byte);
        byte
    }

    fn rra(&mut self, byte: u8) -> (res: u8) {
        let carry: u8 = if self.flags.c { 0x80 } else { 0 };
        proof {
            lemma_byte_bits(byte);
            lemma_or_zero(byte >> 1);
            lemma_insert_bit(byte >> 1, 0x80);
        }
        self.flags.c = carry8(byte, 0x01);
        let byte = byte >> 1 | carry;
        self.adc(byte);
        byte
    }

    fn sax(&mut self) -> (byte: u8) {
        self.a & self.x
    }

    fn sbx(&mut self, byte: u8) {
        let masked = self.a & self.x;
        self.flags.c = masked >= byte;
        self.x = self.flags.set_zn(masked.wrapping_sub(byte));
    }

    fn sha(&mut self) -> (res: Result<u8, CpuFault>) {
        Err(CpuFault::Unstable)
    }

    fn shs(&mut self) -> (res: Result<u8, CpuFault>) {
        Err(CpuFault::Unstable)
    }

    fn shx(&mut self) -> (res: Result<u8, CpuFault>) {
        Err(CpuFault::Unstable)
    }

    fn shy(&mut self) -> (res: Result<u8, CpuFault>) {
        Err(CpuFault::Unstable)
    }

    fn slo(&mut self, byte: u8) -> (res: u8) {
        proof {
            lemma_byte_bits(byte);
            lemma_shift_left(byte);
        }
        self.flags.c = carry8(byte, 0x80);
        let byte = byte << 1;
        self.a = self.flags.set_zn(self.a | byte);
        byte
    }

    fn sre(&mut self, byte: u8) -> (res: u8) {
        proof {
            lemma_byte_bits(byte);
        }
        self.flags.c = carry8(byte, 0x01);
        let byte = byte >> 1;
        self.a = self.flags.set_zn(self.a ^ byte);
        byte
    }

    fn dop(&mut self, _byte: u8) {
    }

    fn top(&mut self) {
    }

    fn jam(&mut self) {
        self.halt();
    }

    fn nop(&mut self) {
    }
}

} // verus!
