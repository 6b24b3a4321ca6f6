use nes::cpu::flags::Flags;
use nes::cpu::opcode::AddressingMode;
use nes::cpu::opcode::Kind;
use nes::cpu::opcode::Mnemonic;
use nes::cpu::opcode::Opcode;
use nes::cpu::Cpu;
use nes::cpu::CpuFault;
use nes::iomap::IoMap;
use nes::ram::Ram;

fn cpu_at(origin: u16, program: &[u8]) -> Cpu<Ram> {
    let mut ram = Ram::new();
    ram.load(origin, &program.to_vec());
    let mut cpu = Cpu::new(ram);
    cpu.pc = origin;
    cpu
}

fn registers(cpu: &Cpu<Ram>) -> (u8, u8, u8, u8, u16, Flags, bool) {
    (cpu.a, cpu.x, cpu.y, cpu.s, cpu.pc, cpu.flags, cpu.halted)
}

#[test]
fn every_opcode_moves_past_its_operand_or_says_why_not() {
    for byte in 0..=255u8 {
        let opcode = Opcode(byte);
        let mut cpu = cpu_at(0x8000, &[byte, 0x10, 0x02]);
        cpu.x = 1;
        cpu.y = 2;
        let result = cpu.exec();
        match opcode.mnemonic().kind() {
            Kind::Jam => {
                assert_eq!(result, Err(CpuFault::Halted));
                assert_eq!(cpu.pc, 0x8000);
                assert!(cpu.halted);
            }
            Kind::Unstable => {
                assert_eq!(result, Err(CpuFault::Unstable));
                assert_eq!(cpu.pc, 0x8000);
                assert!(!cpu.halted);
            }
            Kind::Read | Kind::Write | Kind::Modify => {
                assert_eq!(result, Ok(opcode.cycles() as u32), "opcode {:02X}", byte);
                assert_eq!(cpu.pc, 0x8001 + opcode.mode().operand_len(), "opcode {:02X}", byte);
                assert!(!cpu.halted);
            }
            Kind::Branch => {
                let cycles = result.unwrap();
                assert!(cycles == 2 && cpu.pc == 0x8002 || cycles == 3 && cpu.pc == 0x8012);
            }
            Kind::Jump => {
                assert_eq!(result, Ok(opcode.cycles() as u32));
                let target = if opcode.mode() == AddressingMode::Indirect { 0x0000 } else { 0x0210 };
                assert_eq!(cpu.pc, target);
            }
            Kind::Implied => {
                assert_eq!(result, Ok(opcode.cycles() as u32));
                match opcode.mnemonic() {
                    Mnemonic::BRK | Mnemonic::RTI => assert_eq!(cpu.pc, 0x0000),
                    Mnemonic::RTS => assert_eq!(cpu.pc, 0x0001),
                    _ => assert_eq!(cpu.pc, 0x8001),
                }
            }
        }
    }
}

#[test]
fn run_takes_operation_and_mode() {
    let mut cpu = cpu_at(0x8000, &[0x42, 0x00]);
    assert_eq!(cpu.run(Mnemonic::LDA, AddressingMode::Immediate), 0);
    assert_eq!((cpu.a, cpu.pc), (0x42, 0x8001));
    cpu.pc = 0x8000;
    cpu.poke8(0x0042, 0x99);
    assert_eq!(cpu.run(Mnemonic::LDX, AddressingMode::ZeroPage), 0);
    assert_eq!((cpu.x, cpu.pc), (0x99, 0x8001));
    cpu.pc = 0x8000;
    cpu.poke8(0x00DB, 0x77);
    assert_eq!(cpu.run(Mnemonic::LDY, AddressingMode::AbsoluteX), 0);
    assert_eq!((cpu.y, cpu.pc), (0x77, 0x8002));
    cpu.pc = 0x8000;
    cpu.x = 0xFF;
    cpu.poke8(0x0141, 0x66);
    assert_eq!(cpu.run(Mnemonic::LDY, AddressingMode::AbsoluteX), 1);
    assert_eq!((cpu.y, cpu.pc), (0x66, 0x8002));
    assert_eq!(cpu.run(Mnemonic::JAM, AddressingMode::Implied), 0);
    assert!(cpu.halted);
    let before = registers(&cpu);
    assert_eq!(cpu.run(Mnemonic::SHX, AddressingMode::AbsoluteY), 0);
    assert_eq!(registers(&cpu), before);
}

#[test]
fn run_read_feeds_the_byte_to_the_operation() {
    let mut cpu = Cpu::new(Ram::new());
    cpu.run_read(Mnemonic::LDA, 0x05);
    assert_eq!(cpu.a, 0x05);
    cpu.run_read(Mnemonic::ADC, 0x03);
    assert_eq!(cpu.a, 0x08);
    cpu.run_read(Mnemonic::EOR, 0x0F);
    assert_eq!(cpu.a, 0x07);
    cpu.run_read(Mnemonic::LDX, 0x07);
    cpu.run_read(Mnemonic::CPX, 0x07);
    assert!(cpu.flags.z && cpu.flags.c);
    cpu.run_read(Mnemonic::LAX, 0x80);
    assert_eq!((cpu.a, cpu.x), (0x80, 0x80));
    let before = registers(&cpu);
    cpu.run_read(Mnemonic::DOP, 0xFF);
    cpu.run_read(Mnemonic::TOP, 0xFF);
    cpu.run_read(Mnemonic::STA, 0xFF);
    cpu.run_read(Mnemonic::INC, 0xFF);
    cpu.run_read(Mnemonic::JAM, 0xFF);
    assert_eq!(registers(&cpu), before);
}

#[test]
fn run_write_gives_the_register() {
    let mut cpu = Cpu::new(Ram::new());
    cpu.a = 0xF0;
    cpu.x = 0x3C;
    cpu.y = 0x55;
    let before = registers(&cpu);
    assert_eq!(cpu.run_write(Mnemonic::STA), 0xF0);
    assert_eq!(cpu.run_write(Mnemonic::STX), 0x3C);
    assert_eq!(cpu.run_write(Mnemonic::STY), 0x55);
    assert_eq!(cpu.run_write(Mnemonic::SAX), 0x30);
    assert_eq!(cpu.run_write(Mnemonic::LDA), 0x00);
    assert_eq!(registers(&cpu), before);
}

#[test]
fn run_modify_gives_the_new_byte() {
    let mut cpu = Cpu::new(Ram::new());
    assert_eq!(cpu.run_modify(Mnemonic::INC, 0xFF), 0x00);
    assert!(cpu.flags.z);
    assert_eq!(cpu.run_modify(Mnemonic::DEC, 0x00), 0xFF);
    assert!(cpu.flags.n);
    assert_eq!(cpu.run_modify(Mnemonic::ASL, 0xC0), 0x80);
    assert!(cpu.flags.c);
    assert_eq!(cpu.run_modify(Mnemonic::ROL, 0x00), 0x01);
    assert!(!cpu.flags.c);
    assert_eq!(cpu.run_modify(Mnemonic::LSR, 0x03), 0x01);
    assert_eq!(cpu.run_modify(Mnemonic::ROR, 0x02), 0x81);
    cpu.a = 0x00;
    assert_eq!(cpu.run_modify(Mnemonic::SLO, 0x40), 0x80);
    assert_eq!(cpu.a, 0x80);
    let before = registers(&cpu);
    assert_eq!(cpu.run_modify(Mnemonic::LDA, 0x12), 0x12);
    assert_eq!(registers(&cpu), before);
}

#[test]
fn run_implied_branch_and_jump() {
    let mut cpu = Cpu::new(Ram::new());
    cpu.run_implied(Mnemonic::SEC);
    assert!(cpu.flags.c);
    cpu.run_implied(Mnemonic::INX);
    assert_eq!(cpu.x, 1);
    cpu.run_implied(Mnemonic::TXA);
    assert_eq!(cpu.a, 1);
    cpu.run_implied(Mnemonic::PHA);
    assert_eq!(cpu.s, 0xFC);
    let before = registers(&cpu);
    cpu.run_implied(Mnemonic::NOP);
    cpu.run_implied(Mnemonic::LDA);
    cpu.run_implied(Mnemonic::JAM);
    assert_eq!(registers(&cpu), before);
    cpu.pc = 0x1000;
    assert!(cpu.run_branch(Mnemonic::BCS, 0x10));
    assert_eq!(cpu.pc, 0x1010);
    assert!(!cpu.run_branch(Mnemonic::BCC, 0x10));
    assert_eq!(cpu.pc, 0x1010);
    assert!(!cpu.run_branch(Mnemonic::LDA, 0x10));
    assert_eq!(cpu.pc, 0x1010);
    cpu.run_jump(Mnemonic::JMP, 0x2000);
    assert_eq!((cpu.pc, cpu.s), (0x2000, 0xFC));
    cpu.run_jump(Mnemonic::JSR, 0x3000);
    assert_eq!((cpu.pc, cpu.s), (0x3000, 0xFA));
    assert_eq!(cpu.peek16(0x01FB), 0x1FFF);
    cpu.run_jump(Mnemonic::NOP, 0x4000);
    assert_eq!(cpu.pc, 0x3000);
}

#[test]
fn modify_at_and_modify_accumulator() {
    let mut cpu = Cpu::new(Ram::new());
    cpu.poke8(0x0300, 0x7F);
    cpu.modify_at(Mnemonic::INC, 0x0300);
    assert_eq!(cpu.peek8(0x0300), 0x80);
    assert!(cpu.flags.n);
    cpu.a = 0x81;
    cpu.modify_accumulator(Mnemonic::LSR);
    assert_eq!(cpu.a, 0x40);
    assert!(cpu.flags.c);
    assert_eq!(cpu.peek8(0x0300), 0x80);
}

#[test]
fn halt_stops_the_processor() {
    let mut cpu = cpu_at(0x8000, &[0xEA]);
    cpu.halt();
    assert!(cpu.halted);
    assert_eq!(cpu.exec(), Err(CpuFault::Halted));
    assert_eq!(cpu.pc, 0x8000);
}
