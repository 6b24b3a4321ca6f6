//! The processor: its registers, its stack and the execution of one instruction.
use vstd::prelude::*;
use crate::base::RESET_VECTOR;
use crate::base::SIZE_2K;
use crate::iomap::IoMap;
use crate::iomap::keeps;
use crate::iomap::hi;
use crate::iomap::hi_byte;
use crate::iomap::lo;
use crate::iomap::lo_byte;
use crate::iomap::make_word;
use crate::iomap::word;
use crate::iomap::wrap16;
use crate::iomap::wrap8;
use crate::cpu::flags::Flags;
use crate::cpu::opcode::Kind;
use crate::cpu::opcode::Opcode;

pub mod addressing;
pub mod flags;
pub mod instruction;
pub mod laws;
pub mod opcode;

verus! {

/// The page that holds the stack: addresses 0x100 to 0x1FF.
pub const STACK_PAGE: u16 = 0x100;

/// The stack pointer after power-on or reset.
pub const STACK_TOP: u8 = 0xFD;

/// The largest cycle count.
pub const CYCLE_MAX: u32 = 0xFFFF_FFFF;

/// The size of the console's own memory.
pub const RAM_SIZE: usize = SIZE_2K;

/// The sources that can pull the interrupt line.
#[derive(Clone, Copy, Debug, PartialEq, Eq, Structural)]
pub enum IrqLine {
    IRQ_EXT,
    IRQ_FRAME,
    IRQ_DMC,
}

impl IrqLine {
    /// The bit that stands for the source in the set of pending interrupts.
    pub fn bits(self) -> (bits: u8)
        ensures
            bits == (match self {
                IrqLine::IRQ_EXT => 0x01u8,
                IrqLine::IRQ_FRAME => 0x40u8,
                IrqLine::IRQ_DMC => 0x80u8,
            }),
    {
        match self {
            IrqLine::IRQ_EXT => 0x01,
            IrqLine::IRQ_FRAME => 0x40,
            IrqLine::IRQ_DMC => 0x80,
        }
    }
}

/// The ranks at which hooks on the processor run.
#[derive(Clone, Copy, Debug, PartialEq, Eq, Structural)]
pub enum Level {
    LEVEL_LOW,
    LEVEL_HIGH,
    LEVEL_HIGHEST,
}

impl Level {
    /// The rank as a number; a higher one runs first.
    pub fn rank(self) -> (rank: u32)
        ensures
            rank == (match self {
                Level::LEVEL_LOW => 1u32,
                Level::LEVEL_HIGH => 9u32,
                Level::LEVEL_HIGHEST => 10u32,
            }),
    {
        match self {
            Level::LEVEL_LOW => 1,
            Level::LEVEL_HIGH => 9,
            Level::LEVEL_HIGHEST => 10,
        }
    }
}

/// Why the processor did not execute an instruction.
#[derive(Clone, Copy, Debug, PartialEq, Eq, Structural)]
pub enum CpuFault {
    /// A JAM opcode has stopped the processor; only a reset starts it again.
    Halted,
    /// The opcode at the program counter is one whose result the hardware
    /// itself does not settle; nothing was executed.
    Unstable,
}

/// All that decides what the processor does next: the registers, whether it is
/// halted, and the state of the bus.
pub struct State<B: IoMap> {
    pub a: u8,
    pub x: u8,
    pub y: u8,
    pub s: u8,
    pub pc: u16,
    pub flags: Flags,
    pub halted: bool,
    pub mem: B::Model,
}

impl<B: IoMap> State<B> {
    /// The byte at `address`.
    pub open spec fn peek(self, address: u16) -> u8 {
        B::read(self.mem, address)
    }

    /// The little-endian word at `address` and the address after it.
    pub open spec fn peek_word(self, address: u16) -> u16 {
        word(self.peek(address), self.peek(wrap16(address + 1)))
    }

    /// This state after `byte` was written to `address`.
    pub open spec fn poked(self, address: u16, byte: u8) -> Self {
        State { mem: B::written(self.mem, address, byte), ..self }
    }

    /// This state with the program counter moved on by `n` bytes.
    pub open spec fn skipped(self, n: int) -> Self {
        State { pc: wrap16(self.pc + n), ..self }
    }

    /// The address that the stack pointer stands for.
    pub open spec fn stack_address(self) -> u16 {
        (STACK_PAGE + self.s) as u16
    }

    /// This state after a push of `byte`: written where the stack pointer points,
    /// and the pointer one lower.
    pub open spec fn pushed8(self, byte: u8) -> Self {
        State { s: wrap8(self.s - 1), ..self.poked(self.stack_address(), byte) }
    }

    /// This state after a push of `w`, high byte first.
    pub open spec fn pushed16(self, w: u16) -> Self {
        self.pushed8(hi(w)).pushed8(lo(w))
    }

    /// This state after a pop: the stack pointer one higher.
    pub open spec fn popped8(self) -> Self {
        State { s: wrap8(self.s + 1), ..self }
    }

    /// The byte that a pop returns: the one just above the stack pointer.
    pub open spec fn top8(self) -> u8 {
        self.peek(self.popped8().stack_address())
    }

    /// This state after a word was popped.
    pub open spec fn popped16(self) -> Self {
        self.popped8().popped8()
    }

    /// The word that a pop of two bytes returns, the low byte popped first.
    pub open spec fn top16(self) -> u16 {
        word(self.top8(), self.popped8().top8())
    }

    /// The opcode that the program counter stands on.
    pub open spec fn opcode(self) -> Opcode {
        Opcode(self.peek(self.pc))
    }

    /// The state after one step. A halted processor stays as it is. Before
    /// an instruction is executed the program counter moves past its opcode;
    /// before one that halts or is unstable it does not, so that the first
    /// changes nothing but the halt and the second nothing at all.
    pub open spec fn step(self) -> Self {
        if self.halted {
            self
        } else {
            match self.opcode().spec_mnemonic().spec_kind() {
                Kind::Jam | Kind::Unstable => self.executed(self.opcode()),
                _ => self.skipped(1).executed(self.opcode()),
            }
        }
    }

    /// What one step reports: the cycles that the instruction took, or why
    /// none was executed.
    pub open spec fn step_outcome(self) -> Result<u32, CpuFault> {
        if self.halted {
            Err(CpuFault::Halted)
        } else {
            self.skipped(1).outcome(self.opcode())
        }
    }

    /// The state after power-on or reset on a bus in state `mem`.
    pub open spec fn power_on(mem: B::Model) -> Self {
        State {
            a: 0,
            x: 0,
            y: 0,
            s: STACK_TOP,
            pc: word(B::read(mem, RESET_VECTOR), B::read(mem, wrap16(RESET_VECTOR + 1))),
            flags: Flags::power_on(),
            halted: false,
            mem,
        }
    }
}

/// The processor, on the bus that it drives.
#[derive(Debug)]
pub struct Cpu<B: IoMap> {
    pub a: u8,
    pub x: u8,
    pub y: u8,
    pub s: u8,
    pub flags: Flags,
    pub pc: u16,
    pub bus: B,
    /// Set by a JAM opcode, cleared by a reset.
    pub halted: bool,
}

impl<B: IoMap> IoMap for Cpu<B> {
    type Model = State<B>;

    open spec fn view(&self) -> State<B> {
        State {
            a: self.a,
            x: self.x,
            y: self.y,
            s: self.s,
            pc: self.pc,
            flags: self.flags,
            halted: self.halted,
            mem: self.bus@,
        }
    }

    open spec fn read(model: State<B>, address: u16) -> u8 {
        model.peek(address)
    }

    open spec fn written(model: State<B>, address: u16, byte: u8) -> State<B> {
        model.poked(address, byte)
    }

    fn peek8(&self, address: u16) -> (byte: u8) {
        self.bus.peek8(address)
    }

    fn poke8(&mut self, address: u16, byte: u8) {
        self.bus.poke8(address, byte);
    }
}

impl<B: IoMap> Cpu<B> {
    /// The processor at power-on, on `bus`.
    pub fn new(bus: B) -> (cpu: Cpu<B>)
        ensures
            cpu@ == State::<B>::power_on(bus@),
    {
        let pc = bus.peek16(RESET_VECTOR);
        Cpu { a: 0, x: 0, y: 0, s: STACK_TOP, flags: Flags::new(), pc, bus, halted: false }
    }

    /// Puts the registers back to their power-on values and clears a halt. The
    /// bus is left as it is.
    pub fn reset(&mut self)
        ensures
            final(self)@ == State::<B>::power_on(old(self)@.mem),
    {
        self.a = 0;
        self.x = 0;
        self.y = 0;
        self.s = STACK_TOP;
        self.flags.reset();
        self.pc = self.bus.peek16(RESET_VECTOR);
        self.halted = false;
    }

    /// Stops the processor until the next reset.
    pub fn halt(&mut self)
        ensures
            final(self)@ == (State { halted: true, ..old(self)@ }),
    {
        self.halted = true;
    }

    /// Executes the instruction at the program counter and returns the cycles
    /// that it took. Nothing changes where the processor is halted or the
    /// opcode is unstable; an opcode that halts does only that.
    pub fn exec(&mut self) -> (result: Result<u32, CpuFault>)
        ensures
            result == old(self)@.step_outcome(),
            final(self)@ == old(self)@.step(),
    {
        if self.halted {
            return Err(CpuFault::Halted);
        }
        let opcode = Opcode(self.peek8(self.pc));
        match opcode.mnemonic().kind() {
            Kind::Jam | Kind::Unstable => {},
            _ => {
                self.pc = self.pc.wrapping_add(1);
            },
        }
        opcode.exec(self)
    }

    /// Reads the byte at the program counter and moves the counter past it.
    pub fn fetch8(&mut self) -> (byte: u8)
        ensures
            byte == old(self)@.peek(old(self).pc),
            final(self)@ == old(self)@.skipped(1),
    {
        let byte = self.peek8(self.pc);
        self.pc = self.pc.wrapping_add(1);
        byte
    }

    /// Reads the word at the program counter and moves the counter past it.
    pub fn fetch16(&mut self) -> (w: u16)
        ensures
            w == old(self)@.peek_word(old(self).pc),
            final(self)@ == old(self)@.skipped(2),
    {
        let w = self.peek16(self.pc);
        self.pc = self.pc.wrapping_add(2);
        w
    }

    pub fn push8(&mut self, byte: u8)
        ensures
            final(self)@ == old(self)@.pushed8(byte),
    {
        let addr = STACK_PAGE + self.s as u16;
        self.poke8(addr, byte);
        self.s = self.s.wrapping_sub(1);
    }

    pub fn push16(&mut self, w: u16)
        ensures
            final(self)@ == old(self)@.pushed16(w),
    {
        self.push8(hi_byte(w));
        self.push8(lo_byte(w));
    }

    pub fn pop8(&mut self) -> (byte: u8)
        ensures
            byte == old(self)@.top8(),
            final(self)@ == old(self)@.popped8(),
    {
        self.s = self.s.wrapping_add(1);
        let addr = STACK_PAGE + self.s as u16;
        self.peek8(addr)
    }

    pub fn pop16(&mut self) -> (w: u16)
        ensures
            w == old(self)@.top16(),
            final(self)@ == old(self)@.popped16(),
    {
        let low = self.pop8();
        let high = self.pop8();
        make_word(low, high)
    }
}

/// Whether every bus of kind `B` keeps what is written to the stack page.
pub open spec fn stack_is_ram<B: IoMap>() -> bool {
    forall|address: u16| 0x100 <= address <= 0x1FF ==> keeps::<B>(address)
}

/// The address `depth` bytes above the stack pointer `s`. Above the top of
/// the page comes its bottom.
pub open spec fn stack_slot(s: u8, depth: int) -> u16 {
    (STACK_PAGE + wrap8(s + depth)) as u16
}

impl<B: IoMap> State<B> {
    /// The byte that lies `depth` bytes above the stack pointer. The byte
    /// pushed last lies at depth 1.
    pub open spec fn stacked(self, depth: int) -> u8 {
        self.peek(stack_slot(self.s, depth))
    }

    /// Whether the stack holds `items` above the stack pointer, the last of
    /// them nearest to it.
    pub open spec fn holds_stack(self, items: Seq<u8>) -> bool {
        &&& items.len() <= 0x100
        &&& forall|k: int|
            0 <= k < items.len() ==> #[trigger] items[k] == self.stacked(items.len() - k)
    }

    /// This state after each of `items` was pushed, the first of them first.
    pub open spec fn pushed_all(self, items: Seq<u8>) -> Self
        decreases items.len(),
    {
        if items.len() == 0 {
            self
        } else {
            self.pushed_all(items.drop_last()).pushed8(items.last())
        }
    }

    /// This state after `n` pops.
    pub open spec fn popped_n(self, n: nat) -> Self
        decreases n,
    {
        if n == 0 {
            self
        } else {
            self.popped8().popped_n((n - 1) as nat)
        }
    }

    /// The bytes that `n` pops return, in the order in which they come.
    pub open spec fn top_n(self, n: nat) -> Seq<u8>
        decreases n,
    {
        if n == 0 {
            Seq::empty()
        } else {
            seq![self.top8()] + self.popped8().top_n((n - 1) as nat)
        }
    }
}

/// Two depths that are less than 256 apart name different addresses.
proof fn lemma_slots_differ(s: u8, depth: int, other: int)
    requires
        depth < other < depth + 0x100,
    ensures
        stack_slot(s, depth) != stack_slot(s, other),
        0x100 <= stack_slot(s, depth) <= 0x1FF,
{
}

/// A push onto a stack that is not full leaves what the stack held below the
/// new byte.
#[verifier::rlimit(50)]
pub proof fn push_keeps_stack<B: IoMap>(state: State<B>, items: Seq<u8>, byte: u8)
    requires
        stack_is_ram::<B>(),
        state.holds_stack(items),
        items.len() < 0x100,
    ensures
        state.pushed8(byte).holds_stack(items.push(byte)),
        state.pushed8(byte).s == wrap8(state.s - 1),
{
    let after = state.pushed8(byte);
    let all = items.push(byte);
    let written = state.stack_address();
    assert(written == stack_slot(state.s, 0));
    assert(written == stack_slot(after.s, 1));
    assert(keeps::<B>(written));
    assert forall|k: int| 0 <= k < all.len() implies #[trigger] all[k] == after.stacked(
        all.len() - k,
    ) by {
        if k < items.len() {
            let depth = items.len() - k;
            assert(items[k] == state.stacked(depth));
            assert(stack_slot(after.s, depth + 1) == stack_slot(state.s, depth));
            lemma_slots_differ(state.s, 0, depth);
            lemma_slots_differ(state.s, depth, depth + 1);
            assert(keeps::<B>(stack_slot(state.s, depth)));
            assert(after.peek(stack_slot(state.s, depth)) == state.peek(
                stack_slot(state.s, depth),
            ));
        }
    }
}

/// A pop returns the byte that was pushed last and leaves the rest.
#[verifier::rlimit(50)]
pub proof fn pop_returns_last_pushed<B: IoMap>(state: State<B>, items: Seq<u8>)
    requires
        state.holds_stack(items),
        items.len() > 0,
    ensures
        state.top8() == items.last(),
        state.popped8().holds_stack(items.drop_last()),
        state.popped8().s == wrap8(state.s + 1),
{
    let after = state.popped8();
    let rest = items.drop_last();
    assert(items[items.len() - 1] == state.stacked(1));
    assert(after.stack_address() == stack_slot(state.s, 1));
    assert forall|k: int| 0 <= k < rest.len() implies #[trigger] rest[k] == after.stacked(
        rest.len() - k,
    ) by {
        assert(items[k] == state.stacked(items.len() - k));
        assert(stack_slot(after.s, rest.len() - k) == stack_slot(state.s, items.len() - k));
    }
}

/// Pushes move the stack pointer down by their number, modulo 2^8, and
/// change no other register.
#[verifier::rlimit(50)]
pub proof fn pushes_move_stack_pointer<B: IoMap>(state: State<B>, items: Seq<u8>)
    ensures
        state.pushed_all(items).s == wrap8(state.s - items.len()),
        state.pushed_all(items) == (State {
            s: state.pushed_all(items).s,
            mem: state.pushed_all(items).mem,
            ..state
        }),
    decreases items.len(),
{
    if items.len() > 0 {
        pushes_move_stack_pointer(state, items.drop_last());
    }
}

/// Pops move the stack pointer up by their number, modulo 2^8, and change
/// nothing else.
#[verifier::rlimit(50)]
pub proof fn pops_move_stack_pointer<B: IoMap>(state: State<B>, n: nat)
    ensures
        state.popped_n(n) == (State { s: wrap8(state.s + n), ..state }),
    decreases n,
{
    if n > 0 {
        pops_move_stack_pointer(state.popped8(), (n - 1) as nat);
    }
}

/// Pushes onto a stack that has room for them leave what it held below them.
#[verifier::rlimit(50)]
pub proof fn pushes_keep_stack<B: IoMap>(state: State<B>, below: Seq<u8>, items: Seq<u8>)
    requires
        stack_is_ram::<B>(),
        state.holds_stack(below),
        below.len() + items.len() <= 0x100,
    ensures
        state.pushed_all(items).holds_stack(below + items),
    decreases items.len(),
{
    if items.len() == 0 {
        assert(below + items =~= below);
    } else {
        let before = items.drop_last();
        pushes_keep_stack(state, below, before);
        push_keeps_stack(state.pushed_all(before), below + before, items.last());
        assert((below + before).push(items.last()) =~= below + items);
    }
}

/// Pops return what the stack holds, from the byte pushed last downwards.
#[verifier::rlimit(50)]
pub proof fn pops_return_stack<B: IoMap>(state: State<B>, items: Seq<u8>, n: nat)
    requires
        state.holds_stack(items),
        n <= items.len(),
    ensures
        state.top_n(n).len() == n,
        forall|k: int| 0 <= k < n ==> #[trigger] state.top_n(n)[k] == items[items.len() - 1 - k],
        state.popped_n(n).holds_stack(items.take(items.len() - n)),
    decreases n,
{
    if n == 0 {
        assert(items.take(items.len() - n) =~= items);
    } else {
        let rest = items.drop_last();
        let after = state.popped8();
        let fewer = (n - 1) as nat;
        pop_returns_last_pushed(state, items);
        pops_return_stack(after, rest, fewer);
        assert(state.top_n(n) == seq![state.top8()] + after.top_n(fewer));
        assert forall|k: int| 0 <= k < n implies #[trigger] state.top_n(n)[k] == items[items.len()
            - 1 - k] by {
            if k > 0 {
                assert(state.top_n(n)[k] == after.top_n(fewer)[k - 1]);
                assert(after.top_n(fewer)[k - 1] == rest[rest.len() - 1 - (k - 1)]);
            }
        }
        assert(rest.take(rest.len() - fewer) =~= items.take(items.len() - n));
    }
}

/// Up to 256 bytes that are pushed come back, by as many pops, in the
/// reverse of the order in which they went, and the stack pointer ends where
/// it began.
#[verifier::rlimit(50)]
pub proof fn pops_reverse_pushes<B: IoMap>(state: State<B>, items: Seq<u8>)
    requires
        stack_is_ram::<B>(),
        items.len() <= 0x100,
    ensures
        state.pushed_all(items).top_n(items.len()) == items.reverse(),
        state.pushed_all(items).popped_n(items.len()).s == state.s,
        state.pushed_all(items).s == wrap8(state.s - items.len()),
{
    let empty = Seq::<u8>::empty();
    let full = state.pushed_all(items);
    assert(state.holds_stack(empty));
    pushes_keep_stack(state, empty, items);
    assert(empty + items =~= items);
    pops_return_stack(full, items, items.len());
    assert(full.top_n(items.len()) =~= items.reverse());
    pushes_move_stack_pointer(state, items);
    pops_move_stack_pointer(full, items.len());
}

} // verus!
