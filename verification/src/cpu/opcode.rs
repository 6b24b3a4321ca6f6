//! The opcode table: what each of the 256 opcode bytes stands for.
use vstd::prelude::*;
use crate::base::BRK_CYCLES;
use crate::base::JMP_ABS_CYCLES;
use crate::base::JMP_IND_CYCLES;
use crate::base::JSR_CYCLES;
use crate::base::PHA_CYCLES;
use crate::base::PHP_CYCLES;
use crate::base::PLA_CYCLES;
use crate::base::PLP_CYCLES;
use crate::base::RTI_CYCLES;
use crate::base::RTS_CYCLES;
use crate::cpu::Cpu;
use crate::cpu::CpuFault;
use crate::cpu::State;
use crate::cpu::addressing::Operand;
use crate::cpu::instruction::Instruction;
use crate::cpu::instruction::rotated_left;
use crate::cpu::instruction::rotated_right;
use crate::cpu::instruction::shifted_left;
use crate::cpu::instruction::shifted_right;
use crate::cpu::instruction::signed;
use crate::cpu::instruction::to_signed;
use crate::iomap::IoMap;
use crate::iomap::hi;
use crate::iomap::hi_byte;
use crate::iomap::wrap16;
use crate::iomap::wrap8;

verus! {

/// The operations, by their three-letter names. Those after `TYA` are the
/// undocumented ones.
#[derive(Clone, Copy, Debug, PartialEq, Eq, Structural)]
pub enum Mnemonic {
    ADC,
    AND,
    ASL,
    BCC,
    BCS,
    BEQ,
    BIT,
    BMI,
    BNE,
    BPL,
    BRK,
    BVC,
    BVS,
    CLC,
    CLD,
    CLI,
    CLV,
    CMP,
    CPX,
    CPY,
    DEC,
    DEX,
    DEY,
    EOR,
    INC,
    INX,
    INY,
    JMP,
    JSR,
    LDA,
    LDX,
    LDY,
    LSR,
    NOP,
    ORA,
    PHA,
    PHP,
    PLA,
    PLP,
    ROL,
    ROR,
    RTI,
    RTS,
    SBC,
    SEC,
    SED,
    SEI,
    STA,
    STX,
    STY,
    TAX,
    TAY,
    TSX,
    TXA,
    TXS,
    TYA,
    ANC,
    ANE,
    ARR,
    ASR,
    DCP,
    DOP,
    ISB,
    JAM,
    LAS,
    LAX,
    LXA,
    RLA,
    RRA,
    SAX,
    SBX,
    SHA,
    SHS,
    SHX,
    SHY,
    SLO,
    SRE,
    TOP,
}

/// How an instruction finds its operand.
#[derive(Clone, Copy, Debug, PartialEq, Eq, Structural)]
pub enum AddressingMode {
    /// No operand.
    Implied,
    /// The operand is the accumulator.
    Accumulator,
    /// The operand is the byte after the opcode.
    Immediate,
    /// The byte after the opcode is an address in page zero.
    ZeroPage,
    /// As `ZeroPage`, with X added; the sum stays in page zero.
    ZeroPageX,
    /// As `ZeroPage`, with Y added; the sum stays in page zero.
    ZeroPageY,
    /// The word after the opcode is the address.
    Absolute,
    /// As `Absolute`, with X added.
    AbsoluteX,
    /// As `Absolute`, with Y added.
    AbsoluteY,
    /// The word after the opcode is the address of the address. The second
    /// byte of that is read from the same page as the first.
    Indirect,
    /// The byte after the opcode, with X added within page zero, is the
    /// address of the address.
    IndexedIndirect,
    /// The byte after the opcode is the address in page zero of a word;
    /// that word with Y added is the address.
    IndirectIndexed,
    /// The byte after the opcode is a signed distance for a branch.
    Relative,
}

/// The table itself: for each opcode byte the operation, the addressing mode and
/// the cycles that the instruction takes at least. The opcodes that halt the
/// processor are given no cycles.
pub const TABLE: [(Mnemonic, AddressingMode, u8); 256] = [
    // 0x00
    (Mnemonic::BRK, AddressingMode::Implied, 7),
    (Mnemonic::ORA, AddressingMode::IndexedIndirect, 6),
    (Mnemonic::JAM, AddressingMode::Implied, 0),
    (Mnemonic::SLO, AddressingMode::IndexedIndirect, 8),
    (Mnemonic::DOP, AddressingMode::ZeroPage, 3),
    (Mnemonic::ORA, AddressingMode::ZeroPage, 3),
    (Mnemonic::ASL, AddressingMode::ZeroPage, 5),
    (Mnemonic::SLO, AddressingMode::ZeroPage, 5),
    (Mnemonic::PHP, AddressingMode::Implied, 3),
    (Mnemonic::ORA, AddressingMode::Immediate, 2),
    (Mnemonic::ASL, AddressingMode::Accumulator, 2),
    (Mnemonic::ANC, AddressingMode::Immediate, 2),
    (Mnemonic::TOP, AddressingMode::Absolute, 4),
    (Mnemonic::ORA, AddressingMode::Absolute, 4),
    (Mnemonic::ASL, AddressingMode::Absolute, 6),
    (Mnemonic::SLO, AddressingMode::Absolute, 6),
    // 0x10
    (Mnemonic::BPL, AddressingMode::Relative, 2),
    (Mnemonic::ORA, AddressingMode::IndirectIndexed, 5),
    (Mnemonic::JAM, AddressingMode::Implied, 0),
    (Mnemonic::SLO, AddressingMode::IndirectIndexed, 8),
    (Mnemonic::DOP, AddressingMode::ZeroPageX, 4),
    (Mnemonic::ORA, AddressingMode::ZeroPageX, 4),
    (Mnemonic::ASL, AddressingMode::ZeroPageX, 6),
    (Mnemonic::SLO, AddressingMode::ZeroPageX, 6),
    (Mnemonic::CLC, AddressingMode::Implied, 2),
    (Mnemonic::ORA, AddressingMode::AbsoluteY, 4),
    (Mnemonic::NOP, AddressingMode::Implied, 2),
    (Mnemonic::SLO, AddressingMode::AbsoluteY, 7),
    (Mnemonic::TOP, AddressingMode::AbsoluteX, 4),
    (Mnemonic::ORA, AddressingMode::AbsoluteX, 4),
    (Mnemonic::ASL, AddressingMode::AbsoluteX, 7),
    (Mnemonic::SLO, AddressingMode::AbsoluteX, 7),
    // 0x20
    (Mnemonic::JSR, AddressingMode::Absolute, 6),
    (Mnemonic::AND, AddressingMode::IndexedIndirect, 6),
    (Mnemonic::JAM, AddressingMode::Implied, 0),
    (Mnemonic::RLA, AddressingMode::IndexedIndirect, 8),
    (Mnemonic::BIT, AddressingMode::ZeroPage, 3),
    (Mnemonic::AND, AddressingMode::ZeroPage, 3),
    (Mnemonic::ROL, AddressingMode::ZeroPage, 5),
    (Mnemonic::RLA, AddressingMode::ZeroPage, 5),
    (Mnemonic::PLP, AddressingMode::Implied, 4),
    (Mnemonic::AND, AddressingMode::Immediate, 2),
    (Mnemonic::ROL, AddressingMode::Accumulator, 2),
    (Mnemonic::ANC, AddressingMode::Immediate, 2),
    (Mnemonic::BIT, AddressingMode::Absolute, 4),
    (Mnemonic::AND, AddressingMode::Absolute, 4),
    (Mnemonic::ROL, AddressingMode::Absolute, 6),
    (Mnemonic::RLA, AddressingMode::Absolute, 6),
    // 0x30
    (Mnemonic::BMI, AddressingMode::Relative, 2),
    (Mnemonic::AND, AddressingMode::IndirectIndexed, 5),
    (Mnemonic::JAM, AddressingMode::Implied, 0),
    (Mnemonic::RLA, AddressingMode::IndirectIndexed, 8),
    (Mnemonic::DOP, AddressingMode::ZeroPageX, 4),
    (Mnemonic::AND, AddressingMode::ZeroPageX, 4),
    (Mnemonic::ROL, AddressingMode::ZeroPageX, 6),
    (Mnemonic::RLA, AddressingMode::ZeroPageX, 6),
    (Mnemonic::SEC, AddressingMode::Implied, 2),
    (Mnemonic::AND, AddressingMode::AbsoluteY, 4),
    (Mnemonic::NOP, AddressingMode::Implied, 2),
    (Mnemonic::RLA, AddressingMode::AbsoluteY, 7),
    (Mnemonic::TOP, AddressingMode::AbsoluteX, 4),
    (Mnemonic::AND, AddressingMode::AbsoluteX, 4),
    (Mnemonic::ROL, AddressingMode::AbsoluteX, 7),
    (Mnemonic::RLA, AddressingMode::AbsoluteX, 7),
    // 0x40
    (Mnemonic::RTI, AddressingMode::Implied, 6),
    (Mnemonic::EOR, AddressingMode::IndexedIndirect, 6),
    (Mnemonic::JAM, AddressingMode::Implied, 0),
    (Mnemonic::SRE, AddressingMode::IndexedIndirect, 8),
    (Mnemonic::DOP, AddressingMode::ZeroPage, 3),
    (Mnemonic::EOR, AddressingMode::ZeroPage, 3),
    (Mnemonic::LSR, AddressingMode::ZeroPage, 5),
    (Mnemonic::SRE, AddressingMode::ZeroPage, 5),
    (Mnemonic::PHA, AddressingMode::Implied, 3),
    (Mnemonic::EOR, AddressingMode::Immediate, 2),
    (Mnemonic::LSR, AddressingMode::Accumulator, 2),
    (Mnemonic::ASR, AddressingMode::Immediate, 2),
    (Mnemonic::JMP, AddressingMode::Absolute, 3),
    (Mnemonic::EOR, AddressingMode::Absolute, 4),
    (Mnemonic::LSR, AddressingMode::Absolute, 6),
    (Mnemonic::SRE, AddressingMode::Absolute, 6),
    // 0x50
    (Mnemonic::BVC, AddressingMode::Relative, 2),
    (Mnemonic::EOR, AddressingMode::IndirectIndexed, 5),
    (Mnemonic::JAM, AddressingMode::Implied, 0),
    (Mnemonic::SRE, AddressingMode::IndirectIndexed, 8),
    (Mnemonic::DOP, AddressingMode::ZeroPageX, 4),
    (Mnemonic::EOR, AddressingMode::ZeroPageX, 4),
    (Mnemonic::LSR, AddressingMode::ZeroPageX, 6),
    (Mnemonic::SRE, AddressingMode::ZeroPageX, 6),
    (Mnemonic::CLI, AddressingMode::Implied, 2),
    (Mnemonic::EOR, AddressingMode::AbsoluteY, 4),
    (Mnemonic::NOP, AddressingMode::Implied, 2),
    (Mnemonic::SRE, AddressingMode::AbsoluteY, 7),
    (Mnemonic::TOP, AddressingMode::AbsoluteX, 4),
    (Mnemonic::EOR, AddressingMode::AbsoluteX, 4),
    (Mnemonic::LSR, AddressingMode::AbsoluteX, 7),
    (Mnemonic::SRE, AddressingMode::AbsoluteX, 7),
    // 0x60
    (Mnemonic::RTS, AddressingMode::Implied, 6),
    (Mnemonic::ADC, AddressingMode::IndexedIndirect, 6),
    (Mnemonic::JAM, AddressingMode::Implied, 0),
    (Mnemonic::RRA, AddressingMode::IndexedIndirect, 8),
    (Mnemonic::DOP, AddressingMode::ZeroPage, 3),
    (Mnemonic::ADC, AddressingMode::ZeroPage, 3),
    (Mnemonic::ROR, AddressingMode::ZeroPage, 5),
    (Mnemonic::RRA, AddressingMode::ZeroPage, 5),
    (Mnemonic::PLA, AddressingMode::Implied, 4),
    (Mnemonic::ADC, AddressingMode::Immediate, 2),
    (Mnemonic::ROR, AddressingMode::Accumulator, 2),
    (Mnemonic::ARR, AddressingMode::Immediate, 2),
    (Mnemonic::JMP, AddressingMode::Indirect, 5),
    (Mnemonic::ADC, AddressingMode::Absolute, 4),
    (Mnemonic::ROR, AddressingMode::Absolute, 6),
    (Mnemonic::RRA, AddressingMode::Absolute, 6),
    // 0x70
    (Mnemonic::BVS, AddressingMode::Relative, 2),
    (Mnemonic::ADC, AddressingMode::IndirectIndexed, 5),
    (Mnemonic::JAM, AddressingMode::Implied, 0),
    (Mnemonic::RRA, AddressingMode::IndirectIndexed, 8),
    (Mnemonic::DOP, AddressingMode::ZeroPageX, 4),
    (Mnemonic::ADC, AddressingMode::ZeroPageX, 4),
    (Mnemonic::ROR, AddressingMode::ZeroPageX, 6),
    (Mnemonic::RRA, AddressingMode::ZeroPageX, 6),
    (Mnemonic::SEI, AddressingMode::Implied, 2),
    (Mnemonic::ADC, AddressingMode::AbsoluteY, 4),
    (Mnemonic::NOP, AddressingMode::Implied, 2),
    (Mnemonic::RRA, AddressingMode::AbsoluteY, 7),
    (Mnemonic::TOP, AddressingMode::AbsoluteX, 4),
    (Mnemonic::ADC, AddressingMode::AbsoluteX, 4),
    (Mnemonic::ROR, AddressingMode::AbsoluteX, 7),
    (Mnemonic::RRA, AddressingMode::AbsoluteX, 7),
    // 0x80
    (Mnemonic::DOP, AddressingMode::Immediate, 2),
    (Mnemonic::STA, AddressingMode::IndexedIndirect, 6),
    (Mnemonic::DOP, AddressingMode::Immediate, 2),
    (Mnemonic::SAX, AddressingMode::IndexedIndirect, 6),
    (Mnemonic::STY, AddressingMode::ZeroPage, 3),
    (Mnemonic::STA, AddressingMode::ZeroPage, 3),
    (Mnemonic::STX, AddressingMode::ZeroPage, 3),
    (Mnemonic::SAX, AddressingMode::ZeroPage, 3),
    (Mnemonic::DEY, AddressingMode::Implied, 2),
    (Mnemonic::DOP, AddressingMode::Immediate, 2),
    (Mnemonic::TXA, AddressingMode::Implied, 2),
    (Mnemonic::ANE, AddressingMode::Immediate, 2),
    (Mnemonic::STY, AddressingMode::Absolute, 4),
    (Mnemonic::STA, AddressingMode::Absolute, 4),
    (Mnemonic::STX, AddressingMode::Absolute, 4),
    (Mnemonic::SAX, AddressingMode::Absolute, 4),
    // 0x90
    (Mnemonic::BCC, AddressingMode::Relative, 2),
    (Mnemonic::STA, AddressingMode::IndirectIndexed, 6),
    (Mnemonic::JAM, AddressingMode::Implied, 0),
    (Mnemonic::SHA, AddressingMode::IndirectIndexed, 6),
    (Mnemonic::STY, AddressingMode::ZeroPageX, 4),
    (Mnemonic::STA, AddressingMode::ZeroPageX, 4),
    (Mnemonic::STX, AddressingMode::ZeroPageY, 4),
    (Mnemonic::SAX, AddressingMode::ZeroPageY, 4),
    (Mnemonic::TYA, AddressingMode::Implied, 2),
    (Mnemonic::STA, AddressingMode::AbsoluteY, 5),
    (Mnemonic::TXS, AddressingMode::Implied, 2),
    (Mnemonic::SHS, AddressingMode::AbsoluteY, 5),
    (Mnemonic::SHY, AddressingMode::AbsoluteX, 5),
    (Mnemonic::STA, AddressingMode::AbsoluteX, 5),
    (Mnemonic::SHX, AddressingMode::AbsoluteY, 5),
    (Mnemonic::SHA, AddressingMode::AbsoluteY, 5),
    // 0xA0
    (Mnemonic::LDY, AddressingMode::Immediate, 2),
    (Mnemonic::LDA, AddressingMode::IndexedIndirect, 6),
    (Mnemonic::LDX, AddressingMode::Immediate, 2),
    (Mnemonic::LAX, AddressingMode::IndexedIndirect, 6),
    (Mnemonic::LDY, AddressingMode::ZeroPage, 3),
    (Mnemonic::LDA, AddressingMode::ZeroPage, 3),
    (Mnemonic::LDX, AddressingMode::ZeroPage, 3),
    (Mnemonic::LAX, AddressingMode::ZeroPage, 3),
    (Mnemonic::TAY, AddressingMode::Implied, 2),
    (Mnemonic::LDA, AddressingMode::Immediate, 2),
    (Mnemonic::TAX, AddressingMode::Implied, 2),
    (Mnemonic::LXA, AddressingMode::Immediate, 2),
    (Mnemonic::LDY, AddressingMode::Absolute, 4),
    (Mnemonic::LDA, AddressingMode::Absolute, 4),
    (Mnemonic::LDX, AddressingMode::Absolute, 4),
    (Mnemonic::LAX, AddressingMode::Absolute, 4),
    // 0xB0
    (Mnemonic::BCS, AddressingMode::Relative, 2),
    (Mnemonic::LDA, AddressingMode::IndirectIndexed, 5),
    (Mnemonic::JAM, AddressingMode::Implied, 0),
    (Mnemonic::LAX, AddressingMode::IndirectIndexed, 5),
    (Mnemonic::LDY, AddressingMode::ZeroPageX, 4),
    (Mnemonic::LDA, AddressingMode::ZeroPageX, 4),
    (Mnemonic::LDX, AddressingMode::ZeroPageY, 4),
    (Mnemonic::LAX, AddressingMode::ZeroPageY, 4),
    (Mnemonic::CLV, AddressingMode::Implied, 2),
    (Mnemonic::LDA, AddressingMode::AbsoluteY, 4),
    (Mnemonic::TSX, AddressingMode::Implied, 2),
    (Mnemonic::LAS, AddressingMode::AbsoluteY, 4),
    (Mnemonic::LDY, AddressingMode::AbsoluteX, 4),
    (Mnemonic::LDA, AddressingMode::AbsoluteX, 4),
    (Mnemonic::LDX, AddressingMode::AbsoluteY, 4),
    (Mnemonic::LAX, AddressingMode::AbsoluteY, 4),
    // 0xC0
    (Mnemonic::CPY, AddressingMode::Immediate, 2),
    (Mnemonic::CMP, AddressingMode::IndexedIndirect, 6),
    (Mnemonic::DOP, AddressingMode::Immediate, 2),
    (Mnemonic::DCP, AddressingMode::IndexedIndirect, 8),
    (Mnemonic::CPY, AddressingMode::ZeroPage, 3),
    (Mnemonic::CMP, AddressingMode::ZeroPage, 3),
    (Mnemonic::DEC, AddressingMode::ZeroPage, 5),
    (Mnemonic::DCP, AddressingMode::ZeroPage, 5),
    (Mnemonic::INY, AddressingMode::Implied, 2),
    (Mnemonic::CMP, AddressingMode::Immediate, 2),
    (Mnemonic::DEX, AddressingMode::Implied, 2),
    (Mnemonic::SBX, AddressingMode::Immediate, 2),
    (Mnemonic::CPY, AddressingMode::Absolute, 4),
    (Mnemonic::CMP, AddressingMode::Absolute, 4),
    (Mnemonic::DEC, AddressingMode::Absolute, 6),
    (Mnemonic::DCP, AddressingMode::Absolute, 6),
    // 0xD0
    (Mnemonic::BNE, AddressingMode::Relative, 2),
    (Mnemonic::CMP, AddressingMode::IndirectIndexed, 5),
    (Mnemonic::JAM, AddressingMode::Implied, 0),
    (Mnemonic::DCP, AddressingMode::IndirectIndexed, 8),
    (Mnemonic::DOP, AddressingMode::ZeroPageX, 4),
    (Mnemonic::CMP, AddressingMode::ZeroPageX, 4),
    (Mnemonic::DEC, AddressingMode::ZeroPageX, 6),
    (Mnemonic::DCP, AddressingMode::ZeroPageX, 6),
    (Mnemonic::CLD, AddressingMode::Implied, 2),
    (Mnemonic::CMP, AddressingMode::AbsoluteY, 4),
    (Mnemonic::NOP, AddressingMode::Implied, 2),
    (Mnemonic::DCP, AddressingMode::AbsoluteY, 7),
    (Mnemonic::TOP, AddressingMode::AbsoluteX, 4),
    (Mnemonic::CMP, AddressingMode::AbsoluteX, 4),
    (Mnemonic::DEC, AddressingMode::AbsoluteX, 7),
    (Mnemonic::DCP, AddressingMode::AbsoluteX, 7),
    // 0xE0
    (Mnemonic::CPX, AddressingMode::Immediate, 2),
    (Mnemonic::SBC, AddressingMode::IndexedIndirect, 6),
    (Mnemonic::DOP, AddressingMode::Immediate, 2),
    (Mnemonic::ISB, AddressingMode::IndexedIndirect, 8),
    (Mnemonic::CPX, AddressingMode::ZeroPage, 3),
    (Mnemonic::SBC, AddressingMode::ZeroPage, 3),
    (Mnemonic::INC, AddressingMode::ZeroPage, 5),
    (Mnemonic::ISB, AddressingMode::ZeroPage, 5),
    (Mnemonic::INX, AddressingMode::Implied, 2),
    (Mnemonic::SBC, AddressingMode::Immediate, 2),
    (Mnemonic::NOP, AddressingMode::Implied, 2),
    (Mnemonic::SBC, AddressingMode::Immediate, 2),
    (Mnemonic::CPX, AddressingMode::Absolute, 4),
    (Mnemonic::SBC, AddressingMode::Absolute, 4),
    (Mnemonic::INC, AddressingMode::Absolute, 6),
    (Mnemonic::ISB, AddressingMode::Absolute, 6),
    // 0xF0
    (Mnemonic::BEQ, AddressingMode::Relative, 2),
    (Mnemonic::SBC, AddressingMode::IndirectIndexed, 5),
    (Mnemonic::JAM, AddressingMode::Implied, 0),
    (Mnemonic::ISB, AddressingMode::IndirectIndexed, 8),
    (Mnemonic::DOP, AddressingMode::ZeroPageX, 4),
    (Mnemonic::SBC, AddressingMode::ZeroPageX, 4),
    (Mnemonic::INC, AddressingMode::ZeroPageX, 6),
    (Mnemonic::ISB, AddressingMode::ZeroPageX, 6),
    (Mnemonic::SED, AddressingMode::Implied, 2),
    (Mnemonic::SBC, AddressingMode::AbsoluteY, 4),
    (Mnemonic::NOP, AddressingMode::Implied, 2),
    (Mnemonic::ISB, AddressingMode::AbsoluteY, 7),
    (Mnemonic::TOP, AddressingMode::AbsoluteX, 4),
    (Mnemonic::SBC, AddressingMode::AbsoluteX, 4),
    (Mnemonic::INC, AddressingMode::AbsoluteX, 7),
    (Mnemonic::ISB, AddressingMode::AbsoluteX, 7),
];

impl Mnemonic {
    /// The name under which a trace shows the operation. The no-operations that
    /// skip an operand show as the plain one.
    pub open spec fn spec_name(self) -> Seq<char> {
        match self {
            Mnemonic::ADC => "ADC"@,
            Mnemonic::AND => "AND"@,
            Mnemonic::ASL => "ASL"@,
            Mnemonic::BCC => "BCC"@,
            Mnemonic::BCS => "BCS"@,
            Mnemonic::BEQ => "BEQ"@,
            Mnemonic::BIT => "BIT"@,
            Mnemonic::BMI => "BMI"@,
            Mnemonic::BNE => "BNE"@,
            Mnemonic::BPL => "BPL"@,
            Mnemonic::BRK => "BRK"@,
            Mnemonic::BVC => "BVC"@,
            Mnemonic::BVS => "BVS"@,
            Mnemonic::CLC => "CLC"@,
            Mnemonic::CLD => "CLD"@,
            Mnemonic::CLI => "CLI"@,
            Mnemonic::CLV => "CLV"@,
            Mnemonic::CMP => "CMP"@,
            Mnemonic::CPX => "CPX"@,
            Mnemonic::CPY => "CPY"@,
            Mnemonic::DEC => "DEC"@,
            Mnemonic::DEX => "DEX"@,
            Mnemonic::DEY => "DEY"@,
            Mnemonic::EOR => "EOR"@,
            Mnemonic::INC => "INC"@,
            Mnemonic::INX => "INX"@,
            Mnemonic::INY => "INY"@,
            Mnemonic::JMP => "JMP"@,
            Mnemonic::JSR => "JSR"@,
            Mnemonic::LDA => "LDA"@,
            Mnemonic::LDX => "LDX"@,
            Mnemonic::LDY => "LDY"@,
            Mnemonic::LSR => "LSR"@,
            Mnemonic::NOP => "NOP"@,
            Mnemonic::ORA => "ORA"@,
            Mnemonic::PHA => "PHA"@,
            Mnemonic::PHP => "PHP"@,
            Mnemonic::PLA => "PLA"@,
            Mnemonic::PLP => "PLP"@,
            Mnemonic::ROL => "ROL"@,
            Mnemonic::ROR => "ROR"@,
            Mnemonic::RTI => "RTI"@,
            Mnemonic::RTS => "RTS"@,
            Mnemonic::SBC => "SBC"@,
            Mnemonic::SEC => "SEC"@,
            Mnemonic::SED => "SED"@,
            Mnemonic::SEI => "SEI"@,
            Mnemonic::STA => "STA"@,
            Mnemonic::STX => "STX"@,
            Mnemonic::STY => "STY"@,
            Mnemonic::TAX => "TAX"@,
            Mnemonic::TAY => "TAY"@,
            Mnemonic::TSX => "TSX"@,
            Mnemonic::TXA => "TXA"@,
            Mnemonic::TXS => "TXS"@,
            Mnemonic::TYA => "TYA"@,
            Mnemonic::ANC => "ANC"@,
            Mnemonic::ANE => "ANE"@,
            Mnemonic::ARR => "ARR"@,
            Mnemonic::ASR => "ASR"@,
            Mnemonic::DCP => "DCP"@,
            Mnemonic::DOP => "NOP"@,
            Mnemonic::ISB => "ISB"@,
            Mnemonic::JAM => "JAM"@,
            Mnemonic::LAS => "LAS"@,
            Mnemonic::LAX => "LAX"@,
            Mnemonic::LXA => "LXA"@,
            Mnemonic::RLA => "RLA"@,
            Mnemonic::RRA => "RRA"@,
            Mnemonic::SAX => "SAX"@,
            Mnemonic::SBX => "SBX"@,
            Mnemonic::SHA => "SHA"@,
            Mnemonic::SHS => "SHS"@,
            Mnemonic::SHX => "SHX"@,
            Mnemonic::SHY => "SHY"@,
            Mnemonic::SLO => "SLO"@,
            Mnemonic::SRE => "SRE"@,
            Mnemonic::TOP => "NOP"@,
        }
    }

    pub fn name(self) -> (name: &'static str)
        ensures
            name@ == self.spec_name(),
            name@.len() == 3,
    {
        proof {
            lemma_names_have_three_letters(self);
        }
        match self {
            Mnemonic::ADC => "ADC",
            Mnemonic::AND => "AND",
            Mnemonic::ASL => "ASL",
            Mnemonic::BCC => "BCC",
            Mnemonic::BCS => "BCS",
            Mnemonic::BEQ => "BEQ",
            Mnemonic::BIT => "BIT",
            Mnemonic::BMI => "BMI",
            Mnemonic::BNE => "BNE",
            Mnemonic::BPL => "BPL",
            Mnemonic::BRK => "BRK",
            Mnemonic::BVC => "BVC",
            Mnemonic::BVS => "BVS",
            Mnemonic::CLC => "CLC",
            Mnemonic::CLD => "CLD",
            Mnemonic::CLI => "CLI",
            Mnemonic::CLV => "CLV",
            Mnemonic::CMP => "CMP",
            Mnemonic::CPX => "CPX",
            Mnemonic::CPY => "CPY",
            Mnemonic::DEC => "DEC",
            Mnemonic::DEX => "DEX",
            Mnemonic::DEY => "DEY",
            Mnemonic::EOR => "EOR",
            Mnemonic::INC => "INC",
            Mnemonic::INX => "INX",
            Mnemonic::INY => "INY",
            Mnemonic::JMP => "JMP",
            Mnemonic::JSR => "JSR",
            Mnemonic::LDA => "LDA",
            Mnemonic::LDX => "LDX",
            Mnemonic::LDY => "LDY",
            Mnemonic::LSR => "LSR",
            Mnemonic::NOP => "NOP",
            Mnemonic::ORA => "ORA",
            Mnemonic::PHA => "PHA",
            Mnemonic::PHP => "PHP",
            Mnemonic::PLA => "PLA",
            Mnemonic::PLP => "PLP",
            Mnemonic::ROL => "ROL",
            Mnemonic::ROR => "ROR",
            Mnemonic::RTI => "RTI",
            Mnemonic::RTS => "RTS",
            Mnemonic::SBC => "SBC",
            Mnemonic::SEC => "SEC",
            Mnemonic::SED => "SED",
            Mnemonic::SEI => "SEI",
            Mnemonic::STA => "STA",
            Mnemonic::STX => "STX",
            Mnemonic::STY => "STY",
            Mnemonic::TAX => "TAX",
            Mnemonic::TAY => "TAY",
            Mnemonic::TSX => "TSX",
            Mnemonic::TXA => "TXA",
            Mnemonic::TXS => "TXS",
            Mnemonic::TYA => "TYA",
            Mnemonic::ANC => "ANC",
            Mnemonic::ANE => "ANE",
            Mnemonic::ARR => "ARR",
            Mnemonic::ASR => "ASR",
            Mnemonic::DCP => "DCP",
            Mnemonic::DOP => "NOP",
            Mnemonic::ISB => "ISB",
            Mnemonic::JAM => "JAM",
            Mnemonic::LAS => "LAS",
            Mnemonic::LAX => "LAX",
            Mnemonic::LXA => "LXA",
            Mnemonic::RLA => "RLA",
            Mnemonic::RRA => "RRA",
            Mnemonic::SAX => "SAX",
            Mnemonic::SBX => "SBX",
            Mnemonic::SHA => "SHA",
            Mnemonic::SHS => "SHS",
            Mnemonic::SHX => "SHX",
            Mnemonic::SHY => "SHY",
            Mnemonic::SLO => "SLO",
            Mnemonic::SRE => "SRE",
            Mnemonic::TOP => "NOP",
        }
    }
}

/// Every name has three letters.
pub proof fn lemma_names_have_three_letters(mnemonic: Mnemonic)
    ensures
        mnemonic.spec_name().len() == 3,
{
    reveal_strlit("ADC");
    reveal_strlit("ANC");
    reveal_strlit("AND");
    reveal_strlit("ANE");
    reveal_strlit("ARR");
    reveal_strlit("ASL");
    reveal_strlit("ASR");
    reveal_strlit("BCC");
    reveal_strlit("BCS");
    reveal_strlit("BEQ");
    reveal_strlit("BIT");
    reveal_strlit("BMI");
    reveal_strlit("BNE");
    reveal_strlit("BPL");
    reveal_strlit("BRK");
    reveal_strlit("BVC");
    reveal_strlit("BVS");
    reveal_strlit("CLC");
    reveal_strlit("CLD");
    reveal_strlit("CLI");
    reveal_strlit("CLV");
    reveal_strlit("CMP");
    reveal_strlit("CPX");
    reveal_strlit("CPY");
    reveal_strlit("DCP");
    reveal_strlit("DEC");
    reveal_strlit("DEX");
    reveal_strlit("DEY");
    reveal_strlit("EOR");
    reveal_strlit("INC");
    reveal_strlit("INX");
    reveal_strlit("INY");
    reveal_strlit("ISB");
    reveal_strlit("JAM");
    reveal_strlit("JMP");
    reveal_strlit("JSR");
    reveal_strlit("LAS");
    reveal_strlit("LAX");
    reveal_strlit("LDA");
    reveal_strlit("LDX");
    reveal_strlit("LDY");
    reveal_strlit("LSR");
    reveal_strlit("LXA");
    reveal_strlit("NOP");
    reveal_strlit("ORA");
    reveal_strlit("PHA");
    reveal_strlit("PHP");
    reveal_strlit("PLA");
    reveal_strlit("PLP");
    reveal_strlit("RLA");
    reveal_strlit("ROL");
    reveal_strlit("ROR");
    reveal_strlit("RRA");
    reveal_strlit("RTI");
    reveal_strlit("RTS");
    reveal_strlit("SAX");
    reveal_strlit("SBC");
    reveal_strlit("SBX");
    reveal_strlit("SEC");
    reveal_strlit("SED");
    reveal_strlit("SEI");
    reveal_strlit("SHA");
    reveal_strlit("SHS");
    reveal_strlit("SHX");
    reveal_strlit("SHY");
    reveal_strlit("SLO");
    reveal_strlit("SRE");
    reveal_strlit("STA");
    reveal_strlit("STX");
    reveal_strlit("STY");
    reveal_strlit("TAX");
    reveal_strlit("TAY");
    reveal_strlit("TSX");
    reveal_strlit("TXA");
    reveal_strlit("TXS");
    reveal_strlit("TYA");
}

/// An opcode byte.
#[derive(Clone, Copy, Debug, PartialEq, Eq, Structural)]
pub struct Opcode(pub u8);

impl Opcode {
    /// The operation that the opcode stands for.
    pub open spec fn spec_mnemonic(self) -> Mnemonic {
        TABLE[self.0 as int].0
    }

    /// The addressing mode of the opcode.
    pub open spec fn spec_mode(self) -> AddressingMode {
        TABLE[self.0 as int].1
    }

    /// The cycles that the instruction takes when nothing adds to them.
    pub open spec fn spec_cycles(self) -> u8 {
        TABLE[self.0 as int].2
    }

    #[verifier::when_used_as_spec(spec_mnemonic)]
    pub fn mnemonic(self) -> (mnemonic: Mnemonic)
        ensures
            mnemonic == self.spec_mnemonic(),
    {
        TABLE[self.0 as usize].0
    }

    #[verifier::when_used_as_spec(spec_mode)]
    pub fn mode(self) -> (mode: AddressingMode)
        ensures
            mode == self.spec_mode(),
    {
        TABLE[self.0 as usize].1
    }

    #[verifier::when_used_as_spec(spec_cycles)]
    pub fn cycles(self) -> (cycles: u8)
        ensures
            cycles == self.spec_cycles(),
    {
        TABLE[self.0 as usize].2
    }

    /// The name of the operation, as a trace shows it.
    pub fn name(self) -> (name: &'static str)
        ensures
            name@ == self.spec_mnemonic().spec_name(),
            name@.len() == 3,
    {
        self.mnemonic().name()
    }
}

/// What an operation takes from the instruction around it, and gives back.
#[derive(Clone, Copy, Debug, PartialEq, Eq, Structural)]
pub enum Kind {
    /// It works on the registers alone.
    Implied,
    /// It takes the byte at the operand's address.
    Read,
    /// It gives a byte, which goes to the operand's address.
    Write,
    /// It takes the byte at the operand's address and gives the byte that
    /// replaces it; with the accumulator as operand, it works on that.
    Modify,
    /// It takes the operand's address.
    Jump,
    /// It takes the operand as a signed distance.
    Branch,
    /// The hardware does not settle what it stores; it is not executed.
    Unstable,
    /// It halts the processor.
    Jam,
}

impl Mnemonic {
    pub open spec fn spec_kind(self) -> Kind {
        match self {
            Mnemonic::LDA
            | Mnemonic::LDX
            | Mnemonic::LDY
            | Mnemonic::ADC
            | Mnemonic::SBC
            | Mnemonic::AND
            | Mnemonic::ORA
            | Mnemonic::EOR
            | Mnemonic::BIT
            | Mnemonic::CMP
            | Mnemonic::CPX
            | Mnemonic::CPY
            | Mnemonic::ANC
            | Mnemonic::ANE
            | Mnemonic::ARR
            | Mnemonic::ASR
            | Mnemonic::LAS
            | Mnemonic::LAX
            | Mnemonic::LXA
            | Mnemonic::SBX
            | Mnemonic::DOP
            | Mnemonic::TOP => Kind::Read,
            Mnemonic::STA
            | Mnemonic::STX
            | Mnemonic::STY
            | Mnemonic::SAX => Kind::Write,
            Mnemonic::ASL
            | Mnemonic::LSR
            | Mnemonic::ROL
            | Mnemonic::ROR
            | Mnemonic::DEC
            | Mnemonic::INC
            | Mnemonic::DCP
            | Mnemonic::ISB
            | Mnemonic::RLA
            | Mnemonic::RRA
            | Mnemonic::SLO
            | Mnemonic::SRE => Kind::Modify,
            Mnemonic::JMP
            | Mnemonic::JSR => Kind::Jump,
            Mnemonic::BPL
            | Mnemonic::BMI
            | Mnemonic::BVC
            | Mnemonic::BVS
            | Mnemonic::BCC
            | Mnemonic::BCS
            | Mnemonic::BNE
            | Mnemonic::BEQ => Kind::Branch,
            Mnemonic::SHA
            | Mnemonic::SHS
            | Mnemonic::SHX
            | Mnemonic::SHY => Kind::Unstable,
            Mnemonic::JAM => Kind::Jam,
            _ => Kind::Implied,
        }
    }

    #[verifier::when_used_as_spec(spec_kind)]
    pub fn kind(self) -> (kind: Kind)
        ensures
            kind == self.spec_kind(),
    {
        match self {
            Mnemonic::LDA
            | Mnemonic::LDX
            | Mnemonic::LDY
            | Mnemonic::ADC
            | Mnemonic::SBC
            | Mnemonic::AND
            | Mnemonic::ORA
            | Mnemonic::EOR
            | Mnemonic::BIT
            | Mnemonic::CMP
            | Mnemonic::CPX
            | Mnemonic::CPY
            | Mnemonic::ANC
            | Mnemonic::ANE
            | Mnemonic::ARR
            | Mnemonic::ASR
            | Mnemonic::LAS
            | Mnemonic::LAX
            | Mnemonic::LXA
            | Mnemonic::SBX
            | Mnemonic::DOP
            | Mnemonic::TOP => Kind::Read,
            Mnemonic::STA
            | Mnemonic::STX
            | Mnemonic::STY
            | Mnemonic::SAX => Kind::Write,
            Mnemonic::ASL
            | Mnemonic::LSR
            | Mnemonic::ROL
            | Mnemonic::ROR
            | Mnemonic::DEC
            | Mnemonic::INC
            | Mnemonic::DCP
            | Mnemonic::ISB
            | Mnemonic::RLA
            | Mnemonic::RRA
            | Mnemonic::SLO
            | Mnemonic::SRE => Kind::Modify,
            Mnemonic::JMP
            | Mnemonic::JSR => Kind::Jump,
            Mnemonic::BPL
            | Mnemonic::BMI
            | Mnemonic::BVC
            | Mnemonic::BVS
            | Mnemonic::BCC
            | Mnemonic::BCS
            | Mnemonic::BNE
            | Mnemonic::BEQ => Kind::Branch,
            Mnemonic::SHA
            | Mnemonic::SHS
            | Mnemonic::SHX
            | Mnemonic::SHY => Kind::Unstable,
            Mnemonic::JAM => Kind::Jam,
            _ => Kind::Implied,
        }
    }
}

impl<B: IoMap> State<B> {
    /// This state after an operation of kind `Read` took `byte`.
    #[verifier::opaque]
    pub open spec fn read_op(self, mnemonic: Mnemonic, byte: u8) -> Self {
        match mnemonic {
            Mnemonic::LDA => self.lda(byte),
            Mnemonic::LDX => self.ldx(byte),
            Mnemonic::LDY => self.ldy(byte),
            Mnemonic::ADC => self.adc(byte),
            Mnemonic::SBC => self.sbc(byte),
            Mnemonic::AND => self.and(byte),
            Mnemonic::ORA => self.ora(byte),
            Mnemonic::EOR => self.eor(byte),
            Mnemonic::BIT => self.bit(byte),
            Mnemonic::CMP => self.cmp(byte),
            Mnemonic::CPX => self.cpx(byte),
            Mnemonic::CPY => self.cpy(byte),
            Mnemonic::ANC => self.anc(byte),
            Mnemonic::ANE => self.ane(byte),
            Mnemonic::ARR => self.arr(byte),
            Mnemonic::ASR => self.asr(byte),
            Mnemonic::LAS => self.las(byte),
            Mnemonic::LAX => self.lax(byte),
            Mnemonic::LXA => self.lxa(byte),
            Mnemonic::SBX => self.sbx(byte),
            _ => self,
        }
    }

    /// The byte that an operation of kind `Write` gives.
    pub open spec fn write_value(self, mnemonic: Mnemonic) -> u8 {
        match mnemonic {
            Mnemonic::STA => self.a,
            Mnemonic::STX => self.x,
            Mnemonic::STY => self.y,
            Mnemonic::SAX => self.a & self.x,
            _ => 0,
        }
    }

    /// This state after an operation of kind `Modify` took `byte`.
    #[verifier::opaque]
    pub open spec fn modify_op(self, mnemonic: Mnemonic, byte: u8) -> Self {
        match mnemonic {
            Mnemonic::ASL => self.asl(byte),
            Mnemonic::LSR => self.lsr(byte),
            Mnemonic::ROL => self.rol(byte),
            Mnemonic::ROR => self.ror(byte),
            Mnemonic::DEC => self.dec(byte),
            Mnemonic::INC => self.inc(byte),
            Mnemonic::DCP => self.dcp(byte),
            Mnemonic::ISB => self.isb(byte),
            Mnemonic::RLA => self.rla(byte),
            Mnemonic::RRA => self.rra(byte),
            Mnemonic::SLO => self.slo(byte),
            Mnemonic::SRE => self.sre(byte),
            _ => self,
        }
    }

    /// The byte that an operation of kind `Modify` gives for `byte`.
    pub open spec fn modify_value(self, mnemonic: Mnemonic, byte: u8) -> u8 {
        match mnemonic {
            Mnemonic::ASL | Mnemonic::SLO => shifted_left(byte),
            Mnemonic::LSR | Mnemonic::SRE => shifted_right(byte),
            Mnemonic::ROL | Mnemonic::RLA => rotated_left(byte, self.flags.c),
            Mnemonic::ROR | Mnemonic::RRA => rotated_right(byte, self.flags.c),
            Mnemonic::DEC | Mnemonic::DCP => wrap8(byte - 1),
            Mnemonic::INC | Mnemonic::ISB => wrap8(byte + 1),
            _ => byte,
        }
    }

    /// This state after an operation of kind `Implied`.
    #[verifier::opaque]
    pub open spec fn implied_op(self, mnemonic: Mnemonic) -> Self {
        match mnemonic {
            Mnemonic::TAX => self.tax(),
            Mnemonic::TXA => self.txa(),
            Mnemonic::TAY => self.tay(),
            Mnemonic::TYA => self.tya(),
            Mnemonic::TSX => self.tsx(),
            Mnemonic::TXS => self.txs(),
            Mnemonic::RTS => self.rts(),
            Mnemonic::BRK => self.brk(),
            Mnemonic::RTI => self.rti(),
            Mnemonic::CLC => self.clc(),
            Mnemonic::SEC => self.sec(),
            Mnemonic::CLI => self.cli(),
            Mnemonic::SEI => self.sei(),
            Mnemonic::CLV => self.clv(),
            Mnemonic::CLD => self.cld(),
            Mnemonic::SED => self.sed(),
            Mnemonic::DEX => self.dex(),
            Mnemonic::DEY => self.dey(),
            Mnemonic::INX => self.inx(),
            Mnemonic::INY => self.iny(),
            Mnemonic::PHA => self.pha(),
            Mnemonic::PLA => self.pla(),
            Mnemonic::PHP => self.php(),
            Mnemonic::PLP => self.plp(),
            _ => self,
        }
    }

    /// Whether a branch is taken: each tests one flag.
    pub open spec fn branch_taken(self, mnemonic: Mnemonic) -> bool {
        match mnemonic {
            Mnemonic::BPL => !self.flags.n,
            Mnemonic::BMI => self.flags.n,
            Mnemonic::BVC => !self.flags.v,
            Mnemonic::BVS => self.flags.v,
            Mnemonic::BCC => !self.flags.c,
            Mnemonic::BCS => self.flags.c,
            Mnemonic::BNE => !self.flags.z,
            Mnemonic::BEQ => self.flags.z,
            _ => false,
        }
    }

    /// This state after an operation of kind `Jump` took `target`.
    pub open spec fn jump_op(self, mnemonic: Mnemonic, target: u16) -> Self {
        match mnemonic {
            Mnemonic::JMP => self.jmp(target),
            Mnemonic::JSR => self.jsr(target),
            _ => self,
        }
    }

    /// This state after a byte of memory went through an operation of kind
    /// `Modify`: the byte is read, written back as it was, and then replaced.
    pub open spec fn modified_at(self, mnemonic: Mnemonic, address: u16) -> Self {
        let byte = self.peek(address);
        let rewritten = self.poked(address, byte);
        rewritten.modify_op(mnemonic, byte).poked(address, rewritten.modify_value(mnemonic, byte))
    }

    /// This state after the accumulator went through an operation of kind
    /// `Modify`.
    pub open spec fn modified_accumulator(self, mnemonic: Mnemonic) -> Self {
        State { a: self.modify_value(mnemonic, self.a), ..self.modify_op(mnemonic, self.a) }
    }

    /// The state after an instruction with the given operation and addressing
    /// mode, where in `self` the program counter stands on the first byte
    /// after the opcode. An operation that halts changes nothing but that, and
    /// an unstable one nothing at all.
    #[verifier::opaque]
    pub open spec fn ran(self, mnemonic: Mnemonic, mode: AddressingMode) -> Self {
        let operand = self.operand(mode);
        let ready = self.resolved(mode);
        match mnemonic.spec_kind() {
            Kind::Implied => ready.implied_op(mnemonic),
            Kind::Read => ready.read_op(mnemonic, ready.peek(operand.address)),
            Kind::Write => ready.poked(operand.address, ready.write_value(mnemonic)),
            Kind::Modify => if mode == AddressingMode::Accumulator {
                ready.modified_accumulator(mnemonic)
            } else {
                ready.modified_at(mnemonic, operand.address)
            },
            Kind::Jump => ready.jump_op(mnemonic, operand.address),
            Kind::Branch => ready.branched(
                ready.branch_taken(mnemonic),
                signed(ready.peek(operand.address)) as i8,
            ),
            Kind::Unstable => self,
            Kind::Jam => self.jam(),
        }
    }

    /// The cycles that such an instruction takes beyond those of the table:
    /// one where an operation of kind `Read` has an index carry its address
    /// into another page; one for a branch that is taken, and one more where
    /// it leaves the page of the instruction that follows it.
    #[verifier::opaque]
    pub open spec fn extra_cycles(self, mnemonic: Mnemonic, mode: AddressingMode) -> u32 {
        match mnemonic.spec_kind() {
            Kind::Read => if self.operand(mode).crossed {
                1
            } else {
                0
            },
            Kind::Branch => if !self.branch_taken(mnemonic) {
                0
            } else if hi(self.resolved(mode).pc) == hi(self.ran(mnemonic, mode).pc) {
                1
            } else {
                2
            },
            _ => 0,
        }
    }

    /// The state after the instruction with opcode `opcode`.
    pub open spec fn executed(self, opcode: Opcode) -> Self {
        self.ran(opcode.spec_mnemonic(), opcode.spec_mode())
    }

    /// What the instruction with opcode `opcode` reports: the cycles it took,
    /// or why it was not executed.
    pub open spec fn outcome(self, opcode: Opcode) -> Result<u32, CpuFault> {
        match opcode.spec_mnemonic().spec_kind() {
            Kind::Jam => Err(CpuFault::Halted),
            Kind::Unstable => Err(CpuFault::Unstable),
            _ => Ok(
                (opcode.spec_cycles() + self.extra_cycles(
                    opcode.spec_mnemonic(),
                    opcode.spec_mode(),
                )) as u32,
            ),
        }
    }
}

impl<B: IoMap> Cpu<B> {
    /// Runs an operation of kind `Read` on `byte`.
    pub fn run_read(&mut self, mnemonic: Mnemonic, byte: u8)
        ensures
            final(self)@ == old(self)@.read_op(mnemonic, byte),
    {
        reveal(State::read_op);
        match mnemonic {
            Mnemonic::LDA => self.lda(byte),
            Mnemonic::LDX => self.ldx(byte),
            Mnemonic::LDY => self.ldy(byte),
            Mnemonic::ADC => self.adc(byte),
            Mnemonic::SBC => self.sbc(byte),
            Mnemonic::AND => self.and(byte),
            Mnemonic::ORA => self.ora(byte),
            Mnemonic::EOR => self.eor(byte),
            Mnemonic::BIT => self.bit(byte),
            Mnemonic::CMP => self.cmp(byte),
            Mnemonic::CPX => self.cpx(byte),
            Mnemonic::CPY => self.cpy(byte),
            Mnemonic::ANC => self.anc(byte),
            Mnemonic::ANE => self.ane(byte),
            Mnemonic::ARR => self.arr(byte),
            Mnemonic::ASR => self.asr(byte),
            Mnemonic::LAS => self.las(byte),
            Mnemonic::LAX => self.lax(byte),
            Mnemonic::LXA => self.lxa(byte),
            Mnemonic::SBX => self.sbx(byte),
            Mnemonic::DOP => self.dop(byte),
            Mnemonic::TOP => self.top(),
            _ => {},
        }
    }

    /// Runs an operation of kind `Write` and returns the byte to store.
    pub fn run_write(&mut self, mnemonic: Mnemonic) -> (byte: u8)
        ensures
            byte == old(self)@.write_value(mnemonic),
            final(self)@ == old(self)@,
    {
        match mnemonic {
            Mnemonic::STA => self.sta(),
            Mnemonic::STX => self.stx(),
            Mnemonic::STY => self.sty(),
            Mnemonic::SAX => self.sax(),
            _ => 0,
        }
    }

    /// Runs an operation of kind `Modify` on `byte` and returns the byte that
    /// replaces it.
    pub fn run_modify(&mut self, mnemonic: Mnemonic, byte: u8) -> (res: u8)
        ensures
            res == old(self)@.modify_value(mnemonic, byte),
            final(self)@ == old(self)@.modify_op(mnemonic, byte),
    {
        reveal(State::modify_op);
        match mnemonic {
            Mnemonic::ASL => self.asl(byte),
            Mnemonic::LSR => self.lsr(byte),
            Mnemonic::ROL => self.rol(byte),
            Mnemonic::ROR => self.ror(byte),
            Mnemonic::DEC => self.dec(byte),
            Mnemonic::INC => self.inc(byte),
            Mnemonic::DCP => self.dcp(byte),
            Mnemonic::ISB => self.isb(byte),
            Mnemonic::RLA => self.rla(byte),
            Mnemonic::RRA => self.rra(byte),
            Mnemonic::SLO => self.slo(byte),
            Mnemonic::SRE => self.sre(byte),
            _ => byte,
        }
    }

    /// Runs an operation of kind `Implied`.
    pub fn run_implied(&mut self, mnemonic: Mnemonic)
        ensures
            final(self)@ == old(self)@.implied_op(mnemonic),
    {
        reveal(State::implied_op);
        match mnemonic {
            Mnemonic::TAX => self.tax(),
            Mnemonic::TXA => self.txa(),
            Mnemonic::TAY => self.tay(),
            Mnemonic::TYA => self.tya(),
            Mnemonic::TSX => self.tsx(),
            Mnemonic::TXS => self.txs(),
            Mnemonic::RTS => self.rts(),
            Mnemonic::BRK => self.brk(),
            Mnemonic::RTI => self.rti(),
            Mnemonic::CLC => self.clc(),
            Mnemonic::SEC => self.sec(),
            Mnemonic::CLI => self.cli(),
            Mnemonic::SEI => self.sei(),
            Mnemonic::CLV => self.clv(),
            Mnemonic::CLD => self.cld(),
            Mnemonic::SED => self.sed(),
            Mnemonic::DEX => self.dex(),
            Mnemonic::DEY => self.dey(),
            Mnemonic::INX => self.inx(),
            Mnemonic::INY => self.iny(),
            Mnemonic::PHA => self.pha(),
            Mnemonic::PLA => self.pla(),
            Mnemonic::PHP => self.php(),
            Mnemonic::PLP => self.plp(),
            Mnemonic::NOP => self.nop(),
            _ => {},
        }
    }

    /// Runs a branch and says whether it was taken.
    pub fn run_branch(&mut self, mnemonic: Mnemonic, offset: i8) -> (taken: bool)
        ensures
            taken == old(self)@.branch_taken(mnemonic),
            final(self)@ == old(self)@.branched(taken, offset),
    {
        match mnemonic {
            Mnemonic::BPL => {
                let taken = !self.flags.n;
                self.bpl(offset);
                taken
            },
            Mnemonic::BMI => {
                let taken = self.flags.n;
                self.bmi(offset);
                taken
            },
            Mnemonic::BVC => {
                let taken = !self.flags.v;
                self.bvc(offset);
                taken
            },
            Mnemonic::BVS => {
                let taken = self.flags.v;
                self.bvs(offset);
                taken
            },
            Mnemonic::BCC => {
                let taken = !self.flags.c;
                self.bcc(offset);
                taken
            },
            Mnemonic::BCS => {
                let taken = self.flags.c;
                self.bcs(offset);
                taken
            },
            Mnemonic::BNE => {
                let taken = !self.flags.z;
                self.bne(offset);
                taken
            },
            Mnemonic::BEQ => {
                let taken = self.flags.z;
                self.beq(offset);
                taken
            },
            _ => false,
        }
    }

    /// Runs an operation of kind `Jump`.
    pub fn run_jump(&mut self, mnemonic: Mnemonic, target: u16)
        ensures
            final(self)@ == old(self)@.jump_op(mnemonic, target),
    {
        match mnemonic {
            Mnemonic::JMP => self.jmp(target),
            Mnemonic::JSR => self.jsr(target),
            _ => {},
        }
    }

    /// Puts a byte of memory through an operation of kind `Modify`. The byte
    /// is written twice, first as it was read, as the hardware does.
    pub fn modify_at(&mut self, mnemonic: Mnemonic, address: u16)
        ensures
            final(self)@ == old(self)@.modified_at(mnemonic, address),
    {
        let byte = self.peek8(address);
        self.poke8(address, byte);
        let res = self.run_modify(mnemonic, byte);
        self.poke8(address, res);
    }

    /// Puts the accumulator through an operation of kind `Modify`.
    pub fn modify_accumulator(&mut self, mnemonic: Mnemonic)
        ensures
            final(self)@ == old(self)@.modified_accumulator(mnemonic),
    {
        let byte = self.a;
        self.a = self.run_modify(mnemonic, byte);
    }
}

impl<B: IoMap> Cpu<B> {
    /// Runs an instruction with the given operation and addressing mode, the
    /// program counter standing on the first byte after the opcode, and
    /// returns the cycles that it takes beyond those of the table.
    pub fn run(&mut self, mnemonic: Mnemonic, mode: AddressingMode) -> (extra: u32)
        ensures
            extra == old(self)@.extra_cycles(mnemonic, mode),
            extra <= 2,
            final(self)@ == old(self)@.ran(mnemonic, mode),
    {
        reveal(State::ran);
        reveal(State::extra_cycles);
        match mnemonic.kind() {
            Kind::Jam => {
                self.jam();
                0
            },
            Kind::Unstable => 0,
            Kind::Implied => {
                let _ = self.resolve(mode);
                self.run_implied(mnemonic);
                0
            },
            Kind::Read => {
                let operand = self.resolve(mode);
                let byte = self.peek8(operand.address);
                self.run_read(mnemonic, byte);
                if operand.crossed {
                    1
                } else {
                    0
                }
            },
            Kind::Write => {
                let operand = self.resolve(mode);
                let byte = self.run_write(mnemonic);
                self.poke8(operand.address, byte);
                0
            },
            Kind::Modify => {
                let operand = self.resolve(mode);
                match mode {
                    AddressingMode::Accumulator => self.modify_accumulator(mnemonic),
                    _ => self.modify_at(mnemonic, operand.address),
                }
                0
            },
            Kind::Jump => {
                let operand = self.resolve(mode);
                self.run_jump(mnemonic, operand.address);
                0
            },
            Kind::Branch => {
                let operand = self.resolve(mode);
                let offset = to_signed(self.peek8(operand.address));
                let next = self.pc;
                let taken = self.run_branch(mnemonic, offset);
                if !taken {
                    0
                } else if hi_byte(next) == hi_byte(self.pc) {
                    1
                } else {
                    2
                }
            },
        }
    }
}

impl Opcode {
    /// Executes the instruction with this opcode on `cpu`, whose program
    /// counter stands on the first byte after the opcode, and returns the
    /// cycles that it took. An opcode that halts the processor or is unstable
    /// is not executed.
    pub fn exec<B: IoMap>(self, cpu: &mut Cpu<B>) -> (result: Result<u32, CpuFault>)
        ensures
            result == old(cpu)@.outcome(self),
            final(cpu)@ == old(cpu)@.executed(self),
    {
        let mnemonic = self.mnemonic();
        let extra = cpu.run(mnemonic, self.mode());
        match mnemonic.kind() {
            Kind::Jam => Err(CpuFault::Halted),
            Kind::Unstable => Err(CpuFault::Unstable),
            _ => Ok(self.cycles() as u32 + extra),
        }
    }
}

/// The instruction set as a manual lists it: under each operation its opcodes,
/// each with its addressing mode and cycles. An opcode that is not listed
/// under the operation gives nothing.
pub open spec fn listing(mnemonic: Mnemonic, opcode: u8) -> Option<(AddressingMode, u8)> {
    match mnemonic {
        Mnemonic::ADC => match opcode {
            0x69 => Some((AddressingMode::Immediate, 2u8)),
            0x65 => Some((AddressingMode::ZeroPage, 3u8)),
            0x75 => Some((AddressingMode::ZeroPageX, 4u8)),
            0x6D => Some((AddressingMode::Absolute, 4u8)),
            0x7D => Some((AddressingMode::AbsoluteX, 4u8)),
            0x79 => Some((AddressingMode::AbsoluteY, 4u8)),
            0x61 => Some((AddressingMode::IndexedIndirect, 6u8)),
            0x71 => Some((AddressingMode::IndirectIndexed, 5u8)),
            _ => None,
        },
        Mnemonic::AND => match opcode {
            0x29 => Some((AddressingMode::Immediate, 2u8)),
            0x25 => Some((AddressingMode::ZeroPage, 3u8)),
            0x35 => Some((AddressingMode::ZeroPageX, 4u8)),
            0x2D => Some((AddressingMode::Absolute, 4u8)),
            0x3D => Some((AddressingMode::AbsoluteX, 4u8)),
            0x39 => Some((AddressingMode::AbsoluteY, 4u8)),
            0x21 => Some((AddressingMode::IndexedIndirect, 6u8)),
            0x31 => Some((AddressingMode::IndirectIndexed, 5u8)),
            _ => None,
        },
        Mnemonic::ASL => match opcode {
            0x0A => Some((AddressingMode::Accumulator, 2u8)),
            0x06 => Some((AddressingMode::ZeroPage, 5u8)),
            0x16 => Some((AddressingMode::ZeroPageX, 6u8)),
            0x0E => Some((AddressingMode::Absolute, 6u8)),
            0x1E => Some((AddressingMode::AbsoluteX, 7u8)),
            _ => None,
        },
        Mnemonic::BCC => match opcode {
            0x90 => Some((AddressingMode::Relative, 2u8)),
            _ => None,
        },
        Mnemonic::BCS => match opcode {
            0xB0 => Some((AddressingMode::Relative, 2u8)),
            _ => None,
        },
        Mnemonic::BEQ => match opcode {
            0xF0 => Some((AddressingMode::Relative, 2u8)),
            _ => None,
        },
        Mnemonic::BIT => match opcode {
            0x24 => Some((AddressingMode::ZeroPage, 3u8)),
            0x2C => Some((AddressingMode::Absolute, 4u8)),
            _ => None,
        },
        Mnemonic::BMI => match opcode {
            0x30 => Some((AddressingMode::Relative, 2u8)),
            _ => None,
        },
        Mnemonic::BNE => match opcode {
            0xD0 => Some((AddressingMode::Relative, 2u8)),
            _ => None,
        },
        Mnemonic::BPL => match opcode {
            0x10 => Some((AddressingMode::Relative, 2u8)),
            _ => None,
        },
        Mnemonic::BRK => match opcode {
            0x00 => Some((AddressingMode::Implied, 7u8)),
            _ => None,
        },
        Mnemonic::BVC => match opcode {
            0x50 => Some((AddressingMode::Relative, 2u8)),
            _ => None,
        },
        Mnemonic::BVS => match opcode {
            0x70 => Some((AddressingMode::Relative, 2u8)),
            _ => None,
        },
        Mnemonic::CLC => match opcode {
            0x18 => Some((AddressingMode::Implied, 2u8)),
            _ => None,
        },
        Mnemonic::CLD => match opcode {
            0xD8 => Some((AddressingMode::Implied, 2u8)),
            _ => None,
        },
        Mnemonic::CLI => match opcode {
            0x58 => Some((AddressingMode::Implied, 2u8)),
            _ => None,
        },
        Mnemonic::CLV => match opcode {
            0xB8 => Some((AddressingMode::Implied, 2u8)),
            _ => None,
        },
        Mnemonic::CMP => match opcode {
            0xC9 => Some((AddressingMode::Immediate, 2u8)),
            0xC5 => Some((AddressingMode::ZeroPage, 3u8)),
            0xD5 => Some((AddressingMode::ZeroPageX, 4u8)),
            0xCD => Some((AddressingMode::Absolute, 4u8)),
            0xDD => Some((AddressingMode::AbsoluteX, 4u8)),
            0xD9 => Some((AddressingMode::AbsoluteY, 4u8)),
            0xC1 => Some((AddressingMode::IndexedIndirect, 6u8)),
            0xD1 => Some((AddressingMode::IndirectIndexed, 5u8)),
            _ => None,
        },
        Mnemonic::CPX => match opcode {
            0xE0 => Some((AddressingMode::Immediate, 2u8)),
            0xE4 => Some((AddressingMode::ZeroPage, 3u8)),
            0xEC => Some((AddressingMode::Absolute, 4u8)),
            _ => None,
        },
        Mnemonic::CPY => match opcode {
            0xC0 => Some((AddressingMode::Immediate, 2u8)),
            0xC4 => Some((AddressingMode::ZeroPage, 3u8)),
            0xCC => Some((AddressingMode::Absolute, 4u8)),
            _ => None,
        },
        Mnemonic::DEC => match opcode {
            0xC6 => Some((AddressingMode::ZeroPage, 5u8)),
            0xD6 => Some((AddressingMode::ZeroPageX, 6u8)),
            0xCE => Some((AddressingMode::Absolute, 6u8)),
            0xDE => Some((AddressingMode::AbsoluteX, 7u8)),
            _ => None,
        },
        Mnemonic::DEX => match opcode {
            0xCA => Some((AddressingMode::Implied, 2u8)),
            _ => None,
        },
        Mnemonic::DEY => match opcode {
            0x88 => Some((AddressingMode::Implied, 2u8)),
            _ => None,
        },
        Mnemonic::EOR => match opcode {
            0x49 => Some((AddressingMode::Immediate, 2u8)),
            0x45 => Some((AddressingMode::ZeroPage, 3u8)),
            0x55 => Some((AddressingMode::ZeroPageX, 4u8)),
            0x4D => Some((AddressingMode::Absolute, 4u8)),
            0x5D => Some((AddressingMode::AbsoluteX, 4u8)),
            0x59 => Some((AddressingMode::AbsoluteY, 4u8)),
            0x41 => Some((AddressingMode::IndexedIndirect, 6u8)),
            0x51 => Some((AddressingMode::IndirectIndexed, 5u8)),
            _ => None,
        },
        Mnemonic::INC => match opcode {
            0xE6 => Some((AddressingMode::ZeroPage, 5u8)),
            0xF6 => Some((AddressingMode::ZeroPageX, 6u8)),
            0xEE => Some((AddressingMode::Absolute, 6u8)),
            0xFE => Some((AddressingMode::AbsoluteX, 7u8)),
            _ => None,
        },
        Mnemonic::INX => match opcode {
            0xE8 => Some((AddressingMode::Implied, 2u8)),
            _ => None,
        },
        Mnemonic::INY => match opcode {
            0xC8 => Some((AddressingMode::Implied, 2u8)),
            _ => None,
        },
        Mnemonic::JMP => match opcode {
            0x4C => Some((AddressingMode::Absolute, 3u8)),
            0x6C => Some((AddressingMode::Indirect, 5u8)),
            _ => None,
        },
        Mnemonic::JSR => match opcode {
            0x20 => Some((AddressingMode::Absolute, 6u8)),
            _ => None,
        },
        Mnemonic::LDA => match opcode {
            0xA9 => Some((AddressingMode::Immediate, 2u8)),
            0xA5 => Some((AddressingMode::ZeroPage, 3u8)),
            0xB5 => Some((AddressingMode::ZeroPageX, 4u8)),
            0xAD => Some((AddressingMode::Absolute, 4u8)),
            0xBD => Some((AddressingMode::AbsoluteX, 4u8)),
            0xB9 => Some((AddressingMode::AbsoluteY, 4u8)),
            0xA1 => Some((AddressingMode::IndexedIndirect, 6u8)),
            0xB1 => Some((AddressingMode::IndirectIndexed, 5u8)),
            _ => None,
        },
        Mnemonic::LDX => match opcode {
            0xA2 => Some((AddressingMode::Immediate, 2u8)),
            0xA6 => Some((AddressingMode::ZeroPage, 3u8)),
            0xB6 => Some((AddressingMode::ZeroPageY, 4u8)),
            0xAE => Some((AddressingMode::Absolute, 4u8)),
            0xBE => Some((AddressingMode::AbsoluteY, 4u8)),
            _ => None,
        },
        Mnemonic::LDY => match opcode {
            0xA0 => Some((AddressingMode::Immediate, 2u8)),
            0xA4 => Some((AddressingMode::ZeroPage, 3u8)),
            0xB4 => Some((AddressingMode::ZeroPageX, 4u8)),
            0xAC => Some((AddressingMode::Absolute, 4u8)),
            0xBC => Some((AddressingMode::AbsoluteX, 4u8)),
            _ => None,
        },
        Mnemonic::LSR => match opcode {
            0x4A => Some((AddressingMode::Accumulator, 2u8)),
            0x46 => Some((AddressingMode::ZeroPage, 5u8)),
            0x56 => Some((AddressingMode::ZeroPageX, 6u8)),
            0x4E => Some((AddressingMode::Absolute, 6u8)),
            0x5E => Some((AddressingMode::AbsoluteX, 7u8)),
            _ => None,
        },
        Mnemonic::NOP => match opcode {
            0xEA | 0x1A | 0x3A | 0x5A | 0x7A | 0xDA | 0xFA => Some((AddressingMode::Implied, 2u8)),
            _ => None,
        },
        Mnemonic::ORA => match opcode {
            0x09 => Some((AddressingMode::Immediate, 2u8)),
            0x05 => Some((AddressingMode::ZeroPage, 3u8)),
            0x15 => Some((AddressingMode::ZeroPageX, 4u8)),
            0x0D => Some((AddressingMode::Absolute, 4u8)),
            0x1D => Some((AddressingMode::AbsoluteX, 4u8)),
            0x19 => Some((AddressingMode::AbsoluteY, 4u8)),
            0x01 => Some((AddressingMode::IndexedIndirect, 6u8)),
            0x11 => Some((AddressingMode::IndirectIndexed, 5u8)),
            _ => None,
        },
        Mnemonic::PHA => match opcode {
            0x48 => Some((AddressingMode::Implied, 3u8)),
            _ => None,
        },
        Mnemonic::PHP => match opcode {
            0x08 => Some((AddressingMode::Implied, 3u8)),
            _ => None,
        },
        Mnemonic::PLA => match opcode {
            0x68 => Some((AddressingMode::Implied, 4u8)),
            _ => None,
        },
        Mnemonic::PLP => match opcode {
            0x28 => Some((AddressingMode::Implied, 4u8)),
            _ => None,
        },
        Mnemonic::ROL => match opcode {
            0x2A => Some((AddressingMode::Accumulator, 2u8)),
            0x26 => Some((AddressingMode::ZeroPage, 5u8)),
            0x36 => Some((AddressingMode::ZeroPageX, 6u8)),
            0x2E => Some((AddressingMode::Absolute, 6u8)),
            0x3E => Some((AddressingMode::AbsoluteX, 7u8)),
            _ => None,
        },
        Mnemonic::ROR => match opcode {
            0x6A => Some((AddressingMode::Accumulator, 2u8)),
            0x66 => Some((AddressingMode::ZeroPage, 5u8)),
            0x76 => Some((AddressingMode::ZeroPageX, 6u8)),
            0x6E => Some((AddressingMode::Absolute, 6u8)),
            0x7E => Some((AddressingMode::AbsoluteX, 7u8)),
            _ => None,
        },
        Mnemonic::RTI => match opcode {
            0x40 => Some((AddressingMode::Implied, 6u8)),
            _ => None,
        },
        Mnemonic::RTS => match opcode {
            0x60 => Some((AddressingMode::Implied, 6u8)),
            _ => None,
        },
        Mnemonic::SBC => match opcode {
            0xE9 | 0xEB => Some((AddressingMode::Immediate, 2u8)),
            0xE5 => Some((AddressingMode::ZeroPage, 3u8)),
            0xF5 => Some((AddressingMode::ZeroPageX, 4u8)),
            0xED => Some((AddressingMode::Absolute, 4u8)),
            0xFD => Some((AddressingMode::AbsoluteX, 4u8)),
            0xF9 => Some((AddressingMode::AbsoluteY, 4u8)),
            0xE1 => Some((AddressingMode::IndexedIndirect, 6u8)),
            0xF1 => Some((AddressingMode::IndirectIndexed, 5u8)),
            _ => None,
        },
        Mnemonic::SEC => match opcode {
            0x38 => Some((AddressingMode::Implied, 2u8)),
            _ => None,
        },
        Mnemonic::SED => match opcode {
            0xF8 => Some((AddressingMode::Implied, 2u8)),
            _ => None,
        },
        Mnemonic::SEI => match opcode {
            0x78 => Some((AddressingMode::Implied, 2u8)),
            _ => None,
        },
        Mnemonic::STA => match opcode {
            0x85 => Some((AddressingMode::ZeroPage, 3u8)),
            0x95 => Some((AddressingMode::ZeroPageX, 4u8)),
            0x8D => Some((AddressingMode::Absolute, 4u8)),
            0x9D => Some((AddressingMode::AbsoluteX, 5u8)),
            0x99 => Some((AddressingMode::AbsoluteY, 5u8)),
            0x81 => Some((AddressingMode::IndexedIndirect, 6u8)),
            0x91 => Some((AddressingMode::IndirectIndexed, 6u8)),
            _ => None,
        },
        Mnemonic::STX => match opcode {
            0x86 => Some((AddressingMode::ZeroPage, 3u8)),
            0x96 => Some((AddressingMode::ZeroPageY, 4u8)),
            0x8E => Some((AddressingMode::Absolute, 4u8)),
            _ => None,
        },
        Mnemonic::STY => match opcode {
            0x84 => Some((AddressingMode::ZeroPage, 3u8)),
            0x94 => Some((AddressingMode::ZeroPageX, 4u8)),
            0x8C => Some((AddressingMode::Absolute, 4u8)),
            _ => None,
        },
        Mnemonic::TAX => match opcode {
            0xAA => Some((AddressingMode::Implied, 2u8)),
            _ => None,
        },
        Mnemonic::TAY => match opcode {
            0xA8 => Some((AddressingMode::Implied, 2u8)),
            _ => None,
        },
        Mnemonic::TSX => match opcode {
            0xBA => Some((AddressingMode::Implied, 2u8)),
            _ => None,
        },
        Mnemonic::TXA => match opcode {
            0x8A => Some((AddressingMode::Implied, 2u8)),
            _ => None,
        },
        Mnemonic::TXS => match opcode {
            0x9A => Some((AddressingMode::Implied, 2u8)),
            _ => None,
        },
        Mnemonic::TYA => match opcode {
            0x98 => Some((AddressingMode::Implied, 2u8)),
            _ => None,
        },
        Mnemonic::SLO => match opcode {
            0x07 => Some((AddressingMode::ZeroPage, 5u8)),
            0x17 => Some((AddressingMode::ZeroPageX, 6u8)),
            0x0F => Some((AddressingMode::Absolute, 6u8)),
            0x1F => Some((AddressingMode::AbsoluteX, 7u8)),
            0x1B => Some((AddressingMode::AbsoluteY, 7u8)),
            0x03 => Some((AddressingMode::IndexedIndirect, 8u8)),
            0x13 => Some((AddressingMode::IndirectIndexed, 8u8)),
            _ => None,
        },
        Mnemonic::RLA => match opcode {
            0x27 => Some((AddressingMode::ZeroPage, 5u8)),
            0x37 => Some((AddressingMode::ZeroPageX, 6u8)),
            0x2F => Some((AddressingMode::Absolute, 6u8)),
            0x3F => Some((AddressingMode::AbsoluteX, 7u8)),
            0x3B => Some((AddressingMode::AbsoluteY, 7u8)),
            0x23 => Some((AddressingMode::IndexedIndirect, 8u8)),
            0x33 => Some((AddressingMode::IndirectIndexed, 8u8)),
            _ => None,
        },
        Mnemonic::SRE => match opcode {
            0x47 => Some((AddressingMode::ZeroPage, 5u8)),
            0x57 => Some((AddressingMode::ZeroPageX, 6u8)),
            0x4F => Some((AddressingMode::Absolute, 6u8)),
            0x5F => Some((AddressingMode::AbsoluteX, 7u8)),
            0x5B => Some((AddressingMode::AbsoluteY, 7u8)),
            0x43 => Some((AddressingMode::IndexedIndirect, 8u8)),
            0x53 => Some((AddressingMode::IndirectIndexed, 8u8)),
            _ => None,
        },
        Mnemonic::RRA => match opcode {
            0x67 => Some((AddressingMode::ZeroPage, 5u8)),
            0x77 => Some((AddressingMode::ZeroPageX, 6u8)),
            0x6F => Some((AddressingMode::Absolute, 6u8)),
            0x7F => Some((AddressingMode::AbsoluteX, 7u8)),
            0x7B => Some((AddressingMode::AbsoluteY, 7u8)),
            0x63 => Some((AddressingMode::IndexedIndirect, 8u8)),
            0x73 => Some((AddressingMode::IndirectIndexed, 8u8)),
            _ => None,
        },
        Mnemonic::SAX => match opcode {
            0x87 => Some((AddressingMode::ZeroPage, 3u8)),
            0x97 => Some((AddressingMode::ZeroPageY, 4u8)),
            0x8F => Some((AddressingMode::Absolute, 4u8)),
            0x83 => Some((AddressingMode::IndexedIndirect, 6u8)),
            _ => None,
        },
        Mnemonic::LAX => match opcode {
            0xA7 => Some((AddressingMode::ZeroPage, 3u8)),
            0xB7 => Some((AddressingMode::ZeroPageY, 4u8)),
            0xAF => Some((AddressingMode::Absolute, 4u8)),
            0xBF => Some((AddressingMode::AbsoluteY, 4u8)),
            0xA3 => Some((AddressingMode::IndexedIndirect, 6u8)),
            0xB3 => Some((AddressingMode::IndirectIndexed, 5u8)),
            _ => None,
        },
        Mnemonic::DCP => match opcode {
            0xC7 => Some((AddressingMode::ZeroPage, 5u8)),
            0xD7 => Some((AddressingMode::ZeroPageX, 6u8)),
            0xCF => Some((AddressingMode::Absolute, 6u8)),
            0xDF => Some((AddressingMode::AbsoluteX, 7u8)),
            0xDB => Some((AddressingMode::AbsoluteY, 7u8)),
            0xC3 => Some((AddressingMode::IndexedIndirect, 8u8)),
            0xD3 => Some((AddressingMode::IndirectIndexed, 8u8)),
            _ => None,
        },
        Mnemonic::ISB => match opcode {
            0xE7 => Some((AddressingMode::ZeroPage, 5u8)),
            0xF7 => Some((AddressingMode::ZeroPageX, 6u8)),
            0xEF => Some((AddressingMode::Absolute, 6u8)),
            0xFF => Some((AddressingMode::AbsoluteX, 7u8)),
            0xFB => Some((AddressingMode::AbsoluteY, 7u8)),
            0xE3 => Some((AddressingMode::IndexedIndirect, 8u8)),
            0xF3 => Some((AddressingMode::IndirectIndexed, 8u8)),
            _ => None,
        },
        Mnemonic::ANC => match opcode {
            0x0B | 0x2B => Some((AddressingMode::Immediate, 2u8)),
            _ => None,
        },
        Mnemonic::ASR => match opcode {
            0x4B => Some((AddressingMode::Immediate, 2u8)),
            _ => None,
        },
        Mnemonic::ARR => match opcode {
            0x6B => Some((AddressingMode::Immediate, 2u8)),
            _ => None,
        },
        Mnemonic::ANE => match opcode {
            0x8B => Some((AddressingMode::Immediate, 2u8)),
            _ => None,
        },
        Mnemonic::LXA => match opcode {
            0xAB => Some((AddressingMode::Immediate, 2u8)),
            _ => None,
        },
        Mnemonic::SBX => match opcode {
            0xCB => Some((AddressingMode::Immediate, 2u8)),
            _ => None,
        },
        Mnemonic::SHA => match opcode {
            0x9F => Some((AddressingMode::AbsoluteY, 5u8)),
            0x93 => Some((AddressingMode::IndirectIndexed, 6u8)),
            _ => None,
        },
        Mnemonic::SHX => match opcode {
            0x9E => Some((AddressingMode::AbsoluteY, 5u8)),
            _ => None,
        },
        Mnemonic::SHY => match opcode {
            0x9C => Some((AddressingMode::AbsoluteX, 5u8)),
            _ => None,
        },
        Mnemonic::SHS => match opcode {
            0x9B => Some((AddressingMode::AbsoluteY, 5u8)),
            _ => None,
        },
        Mnemonic::LAS => match opcode {
            0xBB => Some((AddressingMode::AbsoluteY, 4u8)),
            _ => None,
        },
        Mnemonic::DOP => match opcode {
            0x80 | 0x82 | 0x89 | 0xC2 | 0xE2 => Some((AddressingMode::Immediate, 2u8)),
            0x04 | 0x44 | 0x64 => Some((AddressingMode::ZeroPage, 3u8)),
            0x14 | 0x34 | 0x54 | 0x74 | 0xD4 | 0xF4 => Some((AddressingMode::ZeroPageX, 4u8)),
            _ => None,
        },
        Mnemonic::TOP => match opcode {
            0x0C => Some((AddressingMode::Absolute, 4u8)),
            0x1C | 0x3C | 0x5C | 0x7C | 0xDC | 0xFC => Some((AddressingMode::AbsoluteX, 4u8)),
            _ => None,
        },
        Mnemonic::JAM => match opcode {
            0x02 | 0x12 | 0x22 | 0x32 | 0x42 | 0x52 | 0x62 | 0x72 | 0x92 | 0xB2 | 0xD2 | 0xF2 => Some((AddressingMode::Implied, 0u8)),
            _ => None,
        },
    }
}

/// The table and the manual agree: every opcode is listed under the operation
/// that the table gives it, with the mode and the cycles of the table, and
/// under no other operation.
#[verifier::rlimit(40)]
pub proof fn table_matches_listing(opcode: Opcode, mnemonic: Mnemonic)
    ensures
        listing(opcode.spec_mnemonic(), opcode.0) == Some(
            (opcode.spec_mode(), opcode.spec_cycles()),
        ),
        listing(mnemonic, opcode.0).is_some() ==> mnemonic == opcode.spec_mnemonic(),
{
}

/// An operation that takes a byte changes neither the program counter nor
/// memory, and does not halt the processor.
#[verifier::rlimit(40)]
pub proof fn read_op_stays_in_registers<B: IoMap>(state: State<B>, mnemonic: Mnemonic, byte: u8)
    ensures
        state.read_op(mnemonic, byte) == (State {
            a: state.read_op(mnemonic, byte).a,
            x: state.read_op(mnemonic, byte).x,
            y: state.read_op(mnemonic, byte).y,
            s: state.read_op(mnemonic, byte).s,
            flags: state.read_op(mnemonic, byte).flags,
            ..state
        }),
        mnemonic != Mnemonic::LAS ==> state.read_op(mnemonic, byte).s == state.s,
{
    reveal(State::read_op);
    match mnemonic {
        Mnemonic::LDA => {},
        Mnemonic::LDX => {},
        Mnemonic::LDY => {},
        Mnemonic::ADC => {},
        Mnemonic::SBC => {},
        Mnemonic::AND => {},
        Mnemonic::ORA => {},
        Mnemonic::EOR => {},
        Mnemonic::BIT => {},
        Mnemonic::CMP => {},
        Mnemonic::CPX => {},
        Mnemonic::CPY => {},
        Mnemonic::ANC => {},
        Mnemonic::ANE => {},
        Mnemonic::ARR => {},
        Mnemonic::ASR => {},
        Mnemonic::LAS => {},
        Mnemonic::LAX => {},
        Mnemonic::LXA => {},
        Mnemonic::SBX => {},
        _ => {},
    }
}

/// An operation that modifies a byte changes nothing but the accumulator and
/// the flags.
#[verifier::rlimit(40)]
pub proof fn modify_op_stays_in_registers<B: IoMap>(
    state: State<B>,
    mnemonic: Mnemonic,
    byte: u8,
)
    ensures
        state.modify_op(mnemonic, byte) == (State {
            a: state.modify_op(mnemonic, byte).a,
            flags: state.modify_op(mnemonic, byte).flags,
            ..state
        }),
{
    reveal(State::modify_op);
    match mnemonic {
        Mnemonic::ASL => {},
        Mnemonic::LSR => {},
        Mnemonic::ROL => {},
        Mnemonic::ROR => {},
        Mnemonic::DEC => {},
        Mnemonic::INC => {},
        Mnemonic::DCP => {},
        Mnemonic::ISB => {},
        Mnemonic::RLA => {},
        Mnemonic::RRA => {},
        Mnemonic::SLO => {},
        Mnemonic::SRE => {},
        _ => {},
    }
}

/// An operation without an operand does not halt the processor, and writes
/// nothing unless it pushes.
#[verifier::rlimit(40)]
pub proof fn implied_op_keeps_running<B: IoMap>(state: State<B>, mnemonic: Mnemonic)
    ensures
        state.implied_op(mnemonic).halted == state.halted,
        mnemonic != Mnemonic::PHA && mnemonic != Mnemonic::PHP && mnemonic != Mnemonic::BRK
            ==> state.implied_op(mnemonic).mem == state.mem,
{
    reveal(State::implied_op);
    match mnemonic {
        Mnemonic::TAX => {},
        Mnemonic::TXA => {},
        Mnemonic::TAY => {},
        Mnemonic::TYA => {},
        Mnemonic::TSX => {},
        Mnemonic::TXS => {},
        Mnemonic::RTS => {},
        Mnemonic::BRK => {},
        Mnemonic::RTI => {},
        Mnemonic::CLC => {},
        Mnemonic::SEC => {},
        Mnemonic::CLI => {},
        Mnemonic::SEI => {},
        Mnemonic::CLV => {},
        Mnemonic::CLD => {},
        Mnemonic::SED => {},
        Mnemonic::DEX => {},
        Mnemonic::DEY => {},
        Mnemonic::INX => {},
        Mnemonic::INY => {},
        Mnemonic::PHA => {},
        Mnemonic::PLA => {},
        Mnemonic::PHP => {},
        Mnemonic::PLP => {},
        _ => {},
    }
}

/// The cycles of an instruction that reads its operand, by addressing mode.
pub open spec fn read_cycles(mode: AddressingMode) -> u8 {
    match mode {
        AddressingMode::Immediate => 2,
        AddressingMode::ZeroPage => 3,
        AddressingMode::ZeroPageX | AddressingMode::ZeroPageY => 4,
        AddressingMode::Absolute | AddressingMode::AbsoluteX | AddressingMode::AbsoluteY => 4,
        AddressingMode::IndirectIndexed => 5,
        AddressingMode::IndexedIndirect => 6,
        _ => 0,
    }
}

/// The cycles of an instruction that writes its operand, by addressing mode.
/// An index costs a cycle whether or not it carries into another page.
pub open spec fn write_cycles(mode: AddressingMode) -> u8 {
    match mode {
        AddressingMode::ZeroPage => 3,
        AddressingMode::ZeroPageX | AddressingMode::ZeroPageY => 4,
        AddressingMode::Absolute => 4,
        AddressingMode::AbsoluteX | AddressingMode::AbsoluteY => 5,
        AddressingMode::IndexedIndirect | AddressingMode::IndirectIndexed => 6,
        _ => 0,
    }
}

/// The cycles of an instruction that reads its operand and writes it back, by
/// addressing mode: two more than a write.
pub open spec fn modify_cycles(mode: AddressingMode) -> u8 {
    match mode {
        AddressingMode::Accumulator => 2,
        _ => (write_cycles(mode) + 2) as u8,
    }
}

/// The cycles of an instruction without an operand: two, but for those that
/// use the stack.
pub open spec fn implied_cycles(mnemonic: Mnemonic) -> u32 {
    match mnemonic {
        Mnemonic::BRK => BRK_CYCLES,
        Mnemonic::RTI => RTI_CYCLES,
        Mnemonic::RTS => RTS_CYCLES,
        Mnemonic::PHA => PHA_CYCLES,
        Mnemonic::PHP => PHP_CYCLES,
        Mnemonic::PLA => PLA_CYCLES,
        Mnemonic::PLP => PLP_CYCLES,
        _ => 2,
    }
}

/// For every opcode, the cycles in the table are those that the kind of the
/// operation and the addressing mode call for.
#[verifier::rlimit(40)]
pub proof fn cycles_follow_kind_and_mode(opcode: Opcode)
    ensures
        opcode.spec_cycles() == (match opcode.spec_mnemonic().spec_kind() {
            Kind::Implied => implied_cycles(opcode.spec_mnemonic()),
            Kind::Read => read_cycles(opcode.spec_mode()) as u32,
            Kind::Write | Kind::Unstable => write_cycles(opcode.spec_mode()) as u32,
            Kind::Modify => modify_cycles(opcode.spec_mode()) as u32,
            Kind::Branch => 2,
            Kind::Jump => if opcode.spec_mnemonic() == Mnemonic::JSR {
                JSR_CYCLES
            } else if opcode.spec_mode() == AddressingMode::Indirect {
                JMP_IND_CYCLES
            } else {
                JMP_ABS_CYCLES
            },
            Kind::Jam => 0,
        }),
        opcode.spec_cycles() <= 8,
{
}

/// For every opcode, the addressing mode is one that the kind of the
/// operation can work with.
#[verifier::rlimit(40)]
pub proof fn modes_fit_kinds(opcode: Opcode)
    ensures
        match opcode.spec_mnemonic().spec_kind() {
            Kind::Implied | Kind::Jam => opcode.spec_mode() == AddressingMode::Implied,
            Kind::Branch => opcode.spec_mode() == AddressingMode::Relative,
            Kind::Jump => opcode.spec_mode() == AddressingMode::Absolute || (opcode.spec_mnemonic()
                == Mnemonic::JMP && opcode.spec_mode() == AddressingMode::Indirect),
            Kind::Read => read_cycles(opcode.spec_mode()) != 0,
            Kind::Write | Kind::Unstable => write_cycles(opcode.spec_mode()) != 0,
            Kind::Modify => opcode.spec_mode() == AddressingMode::Accumulator || write_cycles(
                opcode.spec_mode(),
            ) != 0,
        },
{
}

/// The opcodes whose two lowest bits are 01 are laid out in a grid: bits 5 to
/// 7 choose the operation and bits 2 to 4 the addressing mode. The one gap is
/// 0x89, where a store of an immediate operand would stand.
pub proof fn arithmetic_opcodes_form_a_grid(opcode: Opcode)
    requires
        opcode.0 % 4 == 1,
        opcode.0 != 0x89,
    ensures
        opcode.spec_mnemonic() == seq![
            Mnemonic::ORA,
            Mnemonic::AND,
            Mnemonic::EOR,
            Mnemonic::ADC,
            Mnemonic::STA,
            Mnemonic::LDA,
            Mnemonic::CMP,
            Mnemonic::SBC,
        ][opcode.0 as int / 32],
        opcode.spec_mode() == seq![
            AddressingMode::IndexedIndirect,
            AddressingMode::ZeroPage,
            AddressingMode::Immediate,
            AddressingMode::Absolute,
            AddressingMode::IndirectIndexed,
            AddressingMode::ZeroPageX,
            AddressingMode::AbsoluteY,
            AddressingMode::AbsoluteX,
        ][(opcode.0 as int / 4) % 8],
{
}

/// The branches are the opcodes 0x10, 0x30, and so on to 0xF0, in the order
/// of the flags that they test, and no other opcode is relative.
pub proof fn branch_opcodes_form_a_column(opcode: Opcode)
    ensures
        opcode.spec_mnemonic().spec_kind() == Kind::Branch <==> opcode.0 % 32 == 16,
        opcode.spec_mode() == AddressingMode::Relative <==> opcode.0 % 32 == 16,
        opcode.0 % 32 == 16 ==> opcode.spec_mnemonic() == seq![
            Mnemonic::BPL,
            Mnemonic::BMI,
            Mnemonic::BVC,
            Mnemonic::BVS,
            Mnemonic::BCC,
            Mnemonic::BCS,
            Mnemonic::BNE,
            Mnemonic::BEQ,
        ][opcode.0 as int / 32],
{
}

/// The opcodes that halt the processor: 0x02 to 0x72 in steps of 0x10, and
/// 0x92, 0xB2, 0xD2 and 0xF2.
pub proof fn jam_opcodes(opcode: Opcode)
    ensures
        opcode.spec_mnemonic().spec_kind() == Kind::Jam <==> (opcode.0 % 16 == 2 && (opcode.0
            < 0x80 || opcode.0 % 32 == 18)),
{
}

/// The unstable opcodes: 0x93, 0x9B, 0x9C, 0x9E and 0x9F.
pub proof fn unstable_opcodes(opcode: Opcode)
    ensures
        opcode.spec_mnemonic().spec_kind() == Kind::Unstable <==> (opcode.0 == 0x93 || opcode.0
            == 0x9B || opcode.0 == 0x9C || opcode.0 == 0x9E || opcode.0 == 0x9F),
{
}

} // verus!
