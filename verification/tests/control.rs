use nes::base::IRQ_VECTOR;
use nes::base::NMI_VECTOR;
use nes::base::RESET_VECTOR;
use nes::cpu::flags::Flags;
use nes::cpu::instruction::Instruction;
use nes::cpu::opcode::Opcode;
use nes::cpu::Cpu;
use nes::cpu::CpuFault;
use nes::iomap::IoMap;
use nes::ram::Ram;

fn clear() -> Flags {
    Flags { n: false, v: false, d: false, i: false, z: false, c: false }
}

fn cpu_at(origin: u16, program: &[u8]) -> Cpu<Ram> {
    let mut ram = Ram::new();
    ram.load(origin, &program.to_vec());
    let mut cpu = Cpu::new(ram);
    cpu.pc = origin;
    cpu
}

#[test]
fn vectors() {
    assert_eq!(NMI_VECTOR, 0xFFFA);
    assert_eq!(RESET_VECTOR, 0xFFFC);
    assert_eq!(IRQ_VECTOR, 0xFFFE);
}

#[test]
fn power_on_reads_the_reset_vector() {
    let mut ram = Ram::new();
    ram.poke8(0xFFFC, 0x00);
    ram.poke8(0xFFFD, 0xC0);
    let cpu = Cpu::new(ram);
    assert_eq!((cpu.a, cpu.x, cpu.y), (0, 0, 0));
    assert_eq!(cpu.pc, 0xC000);
    assert_eq!(cpu.s, 0xFD);
    assert_eq!(cpu.flags.pack(), 0x24);
    assert!(!cpu.halted);
}

#[test]
fn reset_reinitialises_the_registers_and_keeps_memory() {
    let mut cpu = cpu_at(0x8000, &[0xA9, 0x80, 0x48, 0x02]);
    cpu.poke8(0xFFFC, 0x34);
    cpu.poke8(0xFFFD, 0x12);
    assert_eq!(cpu.exec(), Ok(2));
    assert_eq!(cpu.exec(), Ok(3));
    assert_eq!(cpu.exec(), Err(CpuFault::Halted));
    cpu.x = 7;
    cpu.y = 9;
    cpu.reset();
    assert_eq!((cpu.a, cpu.x, cpu.y, cpu.s, cpu.pc), (0, 0, 0, 0xFD, 0x1234));
    assert_eq!(cpu.flags, Flags::new());
    assert!(!cpu.halted);
    assert_eq!(cpu.peek8(0x01FD), 0x80);
    assert_eq!(cpu.peek8(0x8000), 0xA9);
}

#[test]
fn jsr_pushes_the_return_address_less_one() {
    let mut cpu = cpu_at(0xC5FD, &[0x20, 0x2D, 0xC7]);
    assert_eq!(cpu.exec(), Ok(6));
    assert_eq!(cpu.pc, 0xC72D);
    assert_eq!(cpu.s, 0xFB);
    assert_eq!(cpu.peek8(0x01FD), 0xC5);
    assert_eq!(cpu.peek8(0x01FC), 0xFF);
}

#[test]
fn rts_adds_one_to_the_popped_address() {
    let mut cpu = cpu_at(0x9000, &[0x60]);
    cpu.push16(0x1233);
    assert_eq!(cpu.exec(), Ok(6));
    assert_eq!(cpu.pc, 0x1234);
    assert_eq!(cpu.s, 0xFD);
    let mut cpu = cpu_at(0x9000, &[0x60]);
    cpu.push16(0xFFFF);
    assert_eq!(cpu.exec(), Ok(6));
    assert_eq!(cpu.pc, 0x0000);
}

#[test]
fn rts_after_jsr_returns_behind_the_jsr() {
    let origins = [0x0200u16, 0x8000, 0x80FE, 0xFFFD, 0xFFFE, 0xFFFF, 0x0000];
    let targets = [0x0300u16, 0x4000, 0xFFFF, 0x0000, 0x00FF, 0x1234];
    for origin in origins {
        for target in targets {
            if target.wrapping_sub(origin) < 3 {
                // the subroutine would lie on the JSR itself
                continue;
            }
            let mut ram = Ram::new();
            ram.poke8(origin, 0x20);
            ram.poke8(origin.wrapping_add(1), target as u8);
            ram.poke8(origin.wrapping_add(2), (target >> 8) as u8);
            ram.poke8(target, 0x60);
            let mut cpu = Cpu::new(ram);
            cpu.pc = origin;
            cpu.a = 0x11;
            cpu.x = 0x22;
            cpu.y = 0x33;
            let flags = cpu.flags;
            assert_eq!(cpu.exec(), Ok(6));
            assert_eq!(cpu.pc, target);
            assert_eq!(cpu.s, 0xFB);
            assert_eq!(cpu.exec(), Ok(6));
            assert_eq!(cpu.pc, origin.wrapping_add(3));
            assert_eq!(cpu.s, 0xFD);
            assert_eq!((cpu.a, cpu.x, cpu.y), (0x11, 0x22, 0x33));
            assert_eq!(cpu.flags, flags);
        }
    }
}

#[test]
fn jsr_and_rts_as_operations_for_every_program_counter() {
    let mut cpu = Cpu::new(Ram::new());
    for pc in 0..=0xFFFFu16 {
        cpu.pc = pc;
        cpu.jsr(pc ^ 0x5A5A);
        assert_eq!(cpu.pc, pc ^ 0x5A5A);
        cpu.rts();
        assert_eq!(cpu.pc, pc);
        assert_eq!(cpu.s, 0xFD);
    }
}

#[test]
fn bne_with_zero_set_only_skips_its_operand() {
    let mut cpu = cpu_at(0x8000, &[0xD0, 0x10]);
    cpu.flags.z = true;
    let before = (cpu.a, cpu.x, cpu.y, cpu.s, cpu.flags);
    assert_eq!(cpu.exec(), Ok(2));
    assert_eq!(cpu.pc, 0x8002);
    assert_eq!((cpu.a, cpu.x, cpu.y, cpu.s, cpu.flags), before);
}

#[test]
fn bne_with_zero_clear_adds_the_signed_operand() {
    let mut cpu = cpu_at(0x8000, &[0xD0, 0x10]);
    cpu.flags.z = false;
    assert_eq!(cpu.exec(), Ok(3));
    assert_eq!(cpu.pc, 0x8012);
    let mut cpu = cpu_at(0x8010, &[0xD0, 0xFC]);
    cpu.flags.z = false;
    assert_eq!(cpu.exec(), Ok(3));
    assert_eq!(cpu.pc, 0x800E);
    // backwards into the page below: one more cycle
    let mut cpu = cpu_at(0x8000, &[0xD0, 0x80]);
    cpu.flags.z = false;
    assert_eq!(cpu.exec(), Ok(4));
    assert_eq!(cpu.pc, 0x7F82);
    // forwards into the page above
    let mut cpu = cpu_at(0x80F0, &[0xD0, 0x7F]);
    cpu.flags.z = false;
    assert_eq!(cpu.exec(), Ok(4));
    assert_eq!(cpu.pc, 0x8171);
    // around the top of the address space
    let mut cpu = cpu_at(0xFFF0, &[0xD0, 0x7F]);
    cpu.flags.z = false;
    assert_eq!(cpu.exec(), Ok(4));
    assert_eq!(cpu.pc, 0x0071);
}

#[test]
fn bne_for_every_operand() {
    for operand in 0..=255u8 {
        for zero in [false, true] {
            let mut cpu = cpu_at(0x4000, &[0xD0, operand]);
            cpu.flags.z = zero;
            let cycles = cpu.exec().unwrap();
            let target = if zero {
                0x4002
            } else {
                (0x4002i32 + (operand as i8) as i32) as u16
            };
            assert_eq!(cpu.pc, target);
            let expected = if zero {
                2
            } else if target & 0xFF00 == 0x4000 {
                3
            } else {
                4
            };
            assert_eq!(cycles, expected);
        }
    }
}

#[test]
fn each_branch_tests_its_flag() {
    // opcode, flags that take the branch
    let branches: [(u8, Flags); 8] = [
        (0x10, Flags { n: false, ..clear() }),
        (0x30, Flags { n: true, ..clear() }),
        (0x50, Flags { v: false, ..clear() }),
        (0x70, Flags { v: true, ..clear() }),
        (0x90, Flags { c: false, ..clear() }),
        (0xB0, Flags { c: true, ..clear() }),
        (0xD0, Flags { z: false, ..clear() }),
        (0xF0, Flags { z: true, ..clear() }),
    ];
    let all = Flags { n: true, v: true, d: true, i: true, z: true, c: true };
    for (k, (opcode, taking)) in branches.iter().enumerate() {
        let mut cpu = cpu_at(0x8000, &[*opcode, 0x05]);
        cpu.flags = *taking;
        assert_eq!(cpu.exec(), Ok(3));
        assert_eq!(cpu.pc, 0x8007);
        assert_eq!(cpu.flags, *taking);
        // the opposite value of the one flag, whatever the others are
        let opposite = if k % 2 == 0 {
            all
        } else {
            Flags { d: true, i: true, ..clear() }
        };
        let mut cpu = cpu_at(0x8000, &[*opcode, 0x05]);
        cpu.flags = opposite;
        assert_eq!(cpu.exec(), Ok(2));
        assert_eq!(cpu.pc, 0x8002);
    }
}

#[test]
fn branch_operations_wrap_the_program_counter() {
    let mut cpu = Cpu::new(Ram::new());
    cpu.flags = clear();
    cpu.pc = 0x0001;
    cpu.bpl(-2);
    assert_eq!(cpu.pc, 0xFFFF);
    cpu.bcc(1);
    assert_eq!(cpu.pc, 0x0000);
    cpu.bvc(127);
    assert_eq!(cpu.pc, 0x007F);
    cpu.bne(-128);
    assert_eq!(cpu.pc, 0xFFFF);
    cpu.bmi(1);
    cpu.bvs(1);
    cpu.bcs(1);
    cpu.beq(1);
    assert_eq!(cpu.pc, 0xFFFF);
}

#[test]
fn brk_pushes_the_return_address_and_status_and_takes_the_vector() {
    let mut cpu = cpu_at(0x8000, &[0x00, 0xEA]);
    cpu.poke8(0xFFFE, 0x34);
    cpu.poke8(0xFFFF, 0x12);
    cpu.flags = Flags { n: true, v: false, d: false, i: false, z: false, c: true };
    assert_eq!(cpu.exec(), Ok(7));
    assert_eq!(cpu.pc, 0x1234);
    assert_eq!(cpu.s, 0xFA);
    assert_eq!(cpu.peek8(0x01FD), 0x80);
    assert_eq!(cpu.peek8(0x01FC), 0x02);
    assert_eq!(cpu.peek8(0x01FB), 0x80 | 0x20 | 0x10 | 0x01);
    assert_eq!(cpu.flags, Flags { n: true, v: false, d: false, i: true, z: false, c: true });
}

#[test]
fn rti_pops_the_status_and_the_address_without_adding_one() {
    let mut cpu = cpu_at(0x1234, &[0x40]);
    cpu.push16(0x8002);
    cpu.push8(0xFF);
    assert_eq!(cpu.exec(), Ok(6));
    assert_eq!(cpu.pc, 0x8002);
    assert_eq!(cpu.s, 0xFD);
    assert_eq!(cpu.flags.pack(), 0xEF);
}

#[test]
fn rti_after_brk_restores_the_flags() {
    let mut cpu = cpu_at(0x8000, &[0x00, 0xEA, 0xEA]);
    cpu.poke8(0xFFFE, 0x00);
    cpu.poke8(0xFFFF, 0x90);
    cpu.poke8(0x9000, 0x40);
    cpu.flags = Flags { n: false, v: true, d: true, i: false, z: true, c: false };
    assert_eq!(cpu.exec(), Ok(7));
    assert!(cpu.flags.i);
    assert_eq!(cpu.exec(), Ok(6));
    assert_eq!(cpu.pc, 0x8002);
    assert_eq!(cpu.s, 0xFD);
    assert_eq!(cpu.flags, Flags { n: false, v: true, d: true, i: false, z: true, c: false });
}

#[test]
fn indirect_jump_reads_its_high_byte_from_the_same_page() {
    let mut cpu = cpu_at(0x8000, &[0x6C, 0xFF, 0x30]);
    cpu.poke8(0x30FF, 0x80);
    cpu.poke8(0x3000, 0x50);
    cpu.poke8(0x3100, 0x40);
    assert_eq!(cpu.exec(), Ok(5));
    assert_eq!(cpu.pc, 0x5080);
}

#[test]
fn indirect_jump_within_a_page() {
    let mut cpu = cpu_at(0x8000, &[0x6C, 0x20, 0x01]);
    cpu.poke8(0x0120, 0xFC);
    cpu.poke8(0x0121, 0xBA);
    assert_eq!(cpu.exec(), Ok(5));
    assert_eq!(cpu.pc, 0xBAFC);
}

#[test]
fn absolute_jump() {
    let mut cpu = cpu_at(0xC000, &[0x4C, 0xF5, 0xC5]);
    assert_eq!(cpu.exec(), Ok(3));
    assert_eq!(cpu.pc, 0xC5F5);
    assert_eq!(cpu.s, 0xFD);
}

#[test]
fn jam_halts_until_reset() {
    for opcode in [0x02u8, 0x12, 0x22, 0x32, 0x42, 0x52, 0x62, 0x72, 0x92, 0xB2, 0xD2, 0xF2] {
        let mut cpu = cpu_at(0x8000, &[opcode, 0xA9, 0x01]);
        cpu.a = 0x55;
        assert_eq!(cpu.exec(), Err(CpuFault::Halted));
        assert!(cpu.halted);
        assert_eq!((cpu.pc, cpu.a, cpu.s), (0x8000, 0x55, 0xFD));
        // it does not go on fetching
        cpu.pc = 0x8001;
        assert_eq!(cpu.exec(), Err(CpuFault::Halted));
        assert_eq!((cpu.pc, cpu.a), (0x8001, 0x55));
        cpu.poke8(0xFFFC, 0x01);
        cpu.poke8(0xFFFD, 0x80);
        cpu.reset();
        assert!(!cpu.halted);
        assert_eq!(cpu.exec(), Ok(2));
        assert_eq!(cpu.a, 0x01);
    }
}

#[test]
fn unstable_opcodes_are_reported_and_not_executed() {
    for opcode in [0x93u8, 0x9B, 0x9C, 0x9E, 0x9F] {
        let mut cpu = cpu_at(0x8000, &[opcode, 0x10, 0x02]);
        cpu.a = 0xFF;
        cpu.x = 0xFF;
        cpu.y = 0x01;
        assert_eq!(cpu.exec(), Err(CpuFault::Unstable));
        assert_eq!((cpu.pc, cpu.a, cpu.x, cpu.y, cpu.s), (0x8000, 0xFF, 0xFF, 0x01, 0xFD));
        assert!(!cpu.halted);
        assert_eq!(cpu.peek8(0x0210), 0x00);
        assert_eq!(cpu.peek8(0x0211), 0x00);
        // the caller may step over it
        cpu.pc = 0x8003;
        cpu.poke8(0x8003, 0xE8);
        assert_eq!(cpu.exec(), Ok(2));
        assert_eq!(cpu.x, 0x00);
    }
}

#[test]
fn unstable_operations_signal_instead_of_storing() {
    let mut cpu = Cpu::new(Ram::new());
    cpu.a = 0x12;
    assert_eq!(cpu.sha(), Err(CpuFault::Unstable));
    assert_eq!(cpu.shs(), Err(CpuFault::Unstable));
    assert_eq!(cpu.shx(), Err(CpuFault::Unstable));
    assert_eq!(cpu.shy(), Err(CpuFault::Unstable));
    assert_eq!((cpu.a, cpu.s), (0x12, 0xFD));
    cpu.jam();
    assert!(cpu.halted);
}

#[test]
fn opcode_exec_runs_with_the_program_counter_past_the_opcode() {
    let mut cpu = cpu_at(0x8000, &[0xA9, 0x42]);
    cpu.pc = 0x8001;
    assert_eq!(Opcode(0xA9).exec(&mut cpu), Ok(2));
    assert_eq!((cpu.a, cpu.pc), (0x42, 0x8002));
    assert_eq!(Opcode(0x02).exec(&mut cpu), Err(CpuFault::Halted));
    assert!(cpu.halted);
    assert_eq!(cpu.pc, 0x8002);
    let mut cpu = cpu_at(0x8000, &[0x9C, 0x00, 0x02]);
    assert_eq!(Opcode(0x9C).exec(&mut cpu), Err(CpuFault::Unstable));
    assert_eq!(cpu.pc, 0x8000);
}

#[test]
fn fetch_moves_the_program_counter_and_wraps() {
    let mut cpu = cpu_at(0xFFFE, &[0x34, 0x12]);
    cpu.poke8(0x0000, 0x56);
    assert_eq!(cpu.fetch8(), 0x34);
    assert_eq!(cpu.pc, 0xFFFF);
    assert_eq!(cpu.fetch8(), 0x12);
    assert_eq!(cpu.pc, 0x0000);
    cpu.pc = 0xFFFE;
    assert_eq!(cpu.fetch16(), 0x1234);
    assert_eq!(cpu.pc, 0x0000);
    cpu.pc = 0xFFFF;
    assert_eq!(cpu.fetch16(), 0x5612);
    assert_eq!(cpu.pc, 0x0001);
    assert_eq!(cpu.peek16(0xFFFF), 0x5612);
}
