//! What holds of every step of the processor.
use vstd::prelude::*;
use crate::cpu::CpuFault;
use crate::cpu::State;
use crate::cpu::addressing::next_in_page;
use crate::cpu::instruction::rts_undoes_jsr;
use crate::cpu::instruction::signed;
use crate::cpu::opcode::AddressingMode;
use crate::cpu::opcode::Kind;
use crate::cpu::opcode::Mnemonic;
use crate::cpu::opcode::Opcode;
use crate::cpu::opcode::cycles_follow_kind_and_mode;
use crate::cpu::opcode::implied_op_keeps_running;
use crate::cpu::opcode::modify_op_stays_in_registers;
use crate::cpu::opcode::read_op_stays_in_registers;
use crate::cpu::opcode::modes_fit_kinds;
use crate::cpu::stack_is_ram;
use crate::iomap::IoMap;
use crate::iomap::hi;
use crate::iomap::word;
use crate::iomap::wrap16;

verus! {

/// A halted processor stays as it is, whatever the program counter stands on.
pub proof fn halted_stays_halted<B: IoMap>(state: State<B>)
    requires
        state.halted,
    ensures
        state.step() == state,
        state.step_outcome() == Err::<u32, CpuFault>(CpuFault::Halted),
{
}

/// An opcode that halts the processor does that and nothing else: the
/// program counter stays on it.
pub proof fn jam_only_halts<B: IoMap>(state: State<B>)
    requires
        !state.halted,
        state.opcode().spec_mnemonic().spec_kind() == Kind::Jam,
    ensures
        state.step() == (State { halted: true, ..state }),
        state.step_outcome() == Err::<u32, CpuFault>(CpuFault::Halted),
{
    reveal(State::ran);
}

/// An unstable opcode is reported and changes nothing.
pub proof fn unstable_is_not_executed<B: IoMap>(state: State<B>)
    requires
        !state.halted,
        state.opcode().spec_mnemonic().spec_kind() == Kind::Unstable,
    ensures
        state.step() == state,
        state.step_outcome() == Err::<u32, CpuFault>(CpuFault::Unstable),
{
    reveal(State::ran);
}

/// Every other opcode is executed, and takes the cycles of the table or up
/// to two more. Only an opcode that halts can halt the processor.
pub proof fn step_takes_the_cycles_of_the_table<B: IoMap>(state: State<B>)
    requires
        !state.halted,
        state.opcode().spec_mnemonic().spec_kind() != Kind::Jam,
        state.opcode().spec_mnemonic().spec_kind() != Kind::Unstable,
    ensures
        state.step_outcome() matches Ok(cycles) && state.opcode().spec_cycles() <= cycles
            <= state.opcode().spec_cycles() + 2,
        !state.step().halted,
{
    reveal(State::ran);
    reveal(State::extra_cycles);
    let mnemonic = state.opcode().spec_mnemonic();
    let mode = state.opcode().spec_mode();
    let at = state.skipped(1);
    let ready = at.resolved(mode);
    let address = at.operand(mode).address;
    implied_op_keeps_running(ready, mnemonic);
    read_op_stays_in_registers(ready, mnemonic, ready.peek(address));
    modify_op_stays_in_registers(ready, mnemonic, ready.a);
    modify_op_stays_in_registers(ready.poked(address, ready.peek(address)), mnemonic, ready.peek(address));
}

/// A step that reads its operand, branches or jumps writes nothing.
pub proof fn reads_leave_memory<B: IoMap>(state: State<B>)
    requires
        !state.halted,
        state.opcode().spec_mnemonic().spec_kind() == Kind::Read
            || state.opcode().spec_mnemonic().spec_kind() == Kind::Branch
            || state.opcode().spec_mnemonic() == Mnemonic::JMP,
    ensures
        state.step().mem == state.mem,
{
    reveal(State::ran);
    let mode = state.opcode().spec_mode();
    let ready = state.skipped(1).resolved(mode);
    read_op_stays_in_registers(
        ready,
        state.opcode().spec_mnemonic(),
        ready.peek(state.skipped(1).operand(mode).address),
    );
}

/// A step that reads, writes or modifies its operand leaves the program
/// counter on the opcode that follows the operand.
pub proof fn step_moves_past_the_operand<B: IoMap>(state: State<B>)
    requires
        !state.halted,
        state.opcode().spec_mnemonic().spec_kind() == Kind::Read
            || state.opcode().spec_mnemonic().spec_kind() == Kind::Write
            || state.opcode().spec_mnemonic().spec_kind() == Kind::Modify,
    ensures
        state.step().pc == wrap16(state.pc + 1 + state.opcode().spec_mode().spec_operand_len()),
{
    reveal(State::ran);
    let mnemonic = state.opcode().spec_mnemonic();
    let mode = state.opcode().spec_mode();
    let at = state.skipped(1);
    let ready = at.resolved(mode);
    let address = at.operand(mode).address;
    read_op_stays_in_registers(ready, mnemonic, ready.peek(address));
    modify_op_stays_in_registers(ready, mnemonic, ready.a);
    modify_op_stays_in_registers(ready.poked(address, ready.peek(address)), mnemonic, ready.peek(address));
}

/// A step with an operation that takes a byte: the operand is resolved with
/// the program counter past the opcode, the byte at its address is read and
/// goes to the operation. A page crossing costs one cycle.
#[verifier::rlimit(40)]
pub proof fn read_step<B: IoMap>(state: State<B>)
    requires
        !state.halted,
        state.opcode().spec_mnemonic().spec_kind() == Kind::Read,
    ensures
        ({
            let mode = state.opcode().spec_mode();
            let at = state.skipped(1);
            &&& state.step() == at.resolved(mode).read_op(
                state.opcode().spec_mnemonic(),
                state.peek(at.operand(mode).address),
            )
            &&& state.step_outcome() == Ok::<u32, CpuFault>(
                if at.operand(mode).crossed {
                    (state.opcode().spec_cycles() + 1) as u32
                } else {
                    state.opcode().spec_cycles() as u32
                },
            )
        }),
{
    reveal(State::ran);
    reveal(State::extra_cycles);
    cycles_follow_kind_and_mode(state.opcode());
}

/// A step with a store: the register goes to the operand's address, and
/// nothing else changes but the program counter. An index costs no cycle
/// beyond those of the table.
#[verifier::rlimit(40)]
pub proof fn store_step<B: IoMap>(state: State<B>)
    requires
        !state.halted,
        state.opcode().spec_mnemonic().spec_kind() == Kind::Write,
    ensures
        ({
            let mode = state.opcode().spec_mode();
            let at = state.skipped(1);
            &&& state.step() == at.resolved(mode).poked(
                at.operand(mode).address,
                state.write_value(state.opcode().spec_mnemonic()),
            )
            &&& state.step_outcome() == Ok::<u32, CpuFault>(state.opcode().spec_cycles() as u32)
        }),
{
    reveal(State::ran);
    reveal(State::extra_cycles);
    cycles_follow_kind_and_mode(state.opcode());
}

/// A step with an operation that modifies a byte: the byte at the operand's
/// address is read, written back as it was, and then replaced; with the
/// accumulator as operand nothing is written.
#[verifier::rlimit(40)]
pub proof fn modify_step<B: IoMap>(state: State<B>)
    requires
        !state.halted,
        state.opcode().spec_mnemonic().spec_kind() == Kind::Modify,
    ensures
        ({
            let mnemonic = state.opcode().spec_mnemonic();
            let mode = state.opcode().spec_mode();
            let at = state.skipped(1);
            &&& mode == AddressingMode::Accumulator ==> state.step() == at.modified_accumulator(
                mnemonic,
            )
            &&& mode != AddressingMode::Accumulator ==> state.step() == at.resolved(
                mode,
            ).modified_at(mnemonic, at.operand(mode).address)
            &&& state.step_outcome() == Ok::<u32, CpuFault>(state.opcode().spec_cycles() as u32)
        }),
{
    reveal(State::ran);
    reveal(State::extra_cycles);
    cycles_follow_kind_and_mode(state.opcode());
}

/// A step with an operation that has no operand: the operation works on the
/// state with the program counter past the opcode.
#[verifier::rlimit(40)]
pub proof fn implied_step<B: IoMap>(state: State<B>)
    requires
        !state.halted,
        state.opcode().spec_mnemonic().spec_kind() == Kind::Implied,
    ensures
        state.step() == state.skipped(1).implied_op(state.opcode().spec_mnemonic()),
        state.step_outcome() == Ok::<u32, CpuFault>(state.opcode().spec_cycles() as u32),
{
    reveal(State::ran);
    reveal(State::extra_cycles);
    modes_fit_kinds(state.opcode());
    cycles_follow_kind_and_mode(state.opcode());
}

/// A step with a jump: the operation takes the operand's address.
#[verifier::rlimit(40)]
pub proof fn jump_step<B: IoMap>(state: State<B>)
    requires
        !state.halted,
        state.opcode().spec_mnemonic().spec_kind() == Kind::Jump,
    ensures
        ({
            let mode = state.opcode().spec_mode();
            let at = state.skipped(1);
            &&& state.step() == at.resolved(mode).jump_op(
                state.opcode().spec_mnemonic(),
                at.operand(mode).address,
            )
            &&& state.step_outcome() == Ok::<u32, CpuFault>(state.opcode().spec_cycles() as u32)
        }),
{
    reveal(State::ran);
    reveal(State::extra_cycles);
    cycles_follow_kind_and_mode(state.opcode());
}

/// A branch tests its flag. Where the flag says no, the program counter
/// moves past the two bytes of the instruction; where it says yes, the
/// operand, read as signed, is added to that. Nothing else changes. A branch
/// that is taken costs a cycle, and one more where it leaves the page.
#[verifier::rlimit(40)]
pub proof fn branch_adds_signed_operand<B: IoMap>(state: State<B>)
    requires
        !state.halted,
        state.opcode().spec_mnemonic().spec_kind() == Kind::Branch,
    ensures
        ({
            let next = wrap16(state.pc + 2);
            let target = wrap16(next + signed(state.peek(wrap16(state.pc + 1))));
            let taken = state.branch_taken(state.opcode().spec_mnemonic());
            &&& state.step() == (State { pc: if taken { target } else { next }, ..state })
            &&& state.step_outcome() == Ok::<u32, CpuFault>(
                if !taken {
                    2u32
                } else if hi(next) == hi(target) {
                    3u32
                } else {
                    4u32
                },
            )
        }),
{
    reveal(State::ran);
    reveal(State::extra_cycles);
    modes_fit_kinds(state.opcode());
    cycles_follow_kind_and_mode(state.opcode());
}

/// BNE, opcode 0xD0: with zero set the program counter moves past the
/// instruction and nothing else changes; with zero clear the operand, read as
/// signed, is added as well.
pub proof fn bne_branches_on_zero_clear<B: IoMap>(state: State<B>)
    requires
        !state.halted,
        state.peek(state.pc) == 0xD0,
    ensures
        state.flags.z ==> state.step() == (State { pc: wrap16(state.pc + 2), ..state }),
        !state.flags.z ==> state.step() == (State {
            pc: wrap16(state.pc + 2 + signed(state.peek(wrap16(state.pc + 1)))),
            ..state
        }),
{
    branch_adds_signed_operand(state);
}

/// BRK, opcode 0x00: the step is the operation on the state with the program
/// counter past the opcode, and takes seven cycles.
pub proof fn brk_step<B: IoMap>(state: State<B>)
    requires
        !state.halted,
        state.peek(state.pc) == 0x00,
    ensures
        state.step() == state.skipped(1).brk(),
        state.step_outcome() == Ok::<u32, CpuFault>(7),
{
    reveal(State::ran);
    reveal(State::implied_op);
    reveal(State::extra_cycles);
}

/// JSR, opcode 0x20: the step pushes the address of the instruction's last
/// byte and goes on at the operand.
#[verifier::rlimit(40)]
pub proof fn jsr_step<B: IoMap>(state: State<B>)
    requires
        !state.halted,
        state.peek(state.pc) == 0x20,
    ensures
        state.step() == state.skipped(3).jsr(state.peek_word(wrap16(state.pc + 1))),
        state.step_outcome() == Ok::<u32, CpuFault>(6),
{
    reveal(State::ran);
    reveal(State::extra_cycles);
}

/// RTS, opcode 0x60.
pub proof fn rts_step<B: IoMap>(state: State<B>)
    requires
        !state.halted,
        state.peek(state.pc) == 0x60,
    ensures
        state.step() == state.skipped(1).rts(),
        state.step_outcome() == Ok::<u32, CpuFault>(6),
{
    reveal(State::ran);
    reveal(State::implied_op);
    reveal(State::extra_cycles);
}

/// A JSR whose target holds an RTS: after the two steps the program counter
/// stands on the instruction after the JSR, and no register has changed.
pub proof fn jsr_then_rts_returns<B: IoMap>(state: State<B>)
    requires
        stack_is_ram::<B>(),
        !state.halted,
        state.peek(state.pc) == 0x20,
        state.step().peek(state.peek_word(wrap16(state.pc + 1))) == 0x60,
    ensures
        state.step().step() == (State {
            pc: wrap16(state.pc + 3),
            mem: state.step().mem,
            ..state
        }),
{
    let target = state.peek_word(wrap16(state.pc + 1));
    jsr_step(state);
    rts_undoes_jsr(state.skipped(3), target);
    rts_step(state.step());
}

/// An indirect jump, opcode 0x6C: the target's low byte is read at the
/// pointer and its high byte at the next address within the pointer's page.
pub proof fn indirect_jump_stays_in_page<B: IoMap>(state: State<B>)
    requires
        !state.halted,
        state.peek(state.pc) == 0x6C,
    ensures
        ({
            let pointer = state.peek_word(wrap16(state.pc + 1));
            state.step() == (State {
                pc: word(state.peek(pointer), state.peek(next_in_page(pointer))),
                ..state
            })
        }),
        state.step_outcome() == Ok::<u32, CpuFault>(5),
{
    reveal(State::ran);
    reveal(State::extra_cycles);
}

/// The address after a pointer within its page: one up, but from the last
/// byte of the page back to its first.
pub proof fn next_in_page_wraps(pointer: u16)
    ensures
        next_in_page(pointer) == (if pointer % 0x100 == 0xFF {
            pointer - 0xFF
        } else {
            pointer + 1
        }),
{
}

} // verus!
