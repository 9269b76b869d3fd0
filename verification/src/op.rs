//! Instruction mnemonics, addressing modes, and the opcode table of the
//! MOS 6502: one entry per documented opcode, giving the instruction kind,
//! its addressing mode, its byte length and its base cycle cost.
use vstd::prelude::*;

verus! {

/// The 56 documented 6502 instruction mnemonics.
#[derive(Debug, Clone, Copy, PartialEq, Eq, Structural)]
pub enum Instruction {
    ADC,
    AND,
    ASL,
    BCC,
    BCS,
    BEQ,
    BIT,
    BMI,
    BNE,
    BPL,
    BRK,
    BVC,
    BVS,
    CLC,
    CLD,
    CLI,
    CLV,
    CMP,
    CPX,
    CPY,
    DEC,
    DEX,
    DEY,
    EOR,
    INC,
    INX,
    INY,
    JMP,
    JSR,
    LDA,
    LDX,
    LDY,
    LSR,
    NOP,
    ORA,
    PHA,
    PHP,
    PLA,
    PLP,
    ROL,
    ROR,
    RTI,
    RTS,
    SBC,
    SEC,
    SED,
    SEI,
    STA,
    STX,
    STY,
    TAX,
    TAY,
    TSX,
    TXA,
    TXS,
    TYA,
}

/// How an instruction names the location it operates on.
#[derive(Debug, Clone, Copy, PartialEq, Eq, Structural)]
pub enum AddressingMode {
    Immediate,
    Relative,
    ZeroPage,
    ZeroPageX,
    ZeroPageY,
    Absolute,
    AbsoluteX,
    AbsoluteY,
    Indirect,
    IndirectX,
    IndirectY,
    Accumulator,
    NoneAddressing,
}

/// One row of the opcode table: an opcode byte together with the
/// instruction it selects, its addressing mode, the instruction's total
/// byte length (opcode plus operand bytes) and its base cycle cost
/// (page-cross and branch penalties come on top of it).
#[derive(Debug, Clone, Copy, PartialEq, Eq, Structural)]
pub struct OP {
    pub code: u8,
    pub instruction: Instruction,
    pub len: u8,
    pub cycles: u8,
    pub mode: AddressingMode,
}

impl OP {
    pub fn new(instruction: Instruction, mode: AddressingMode, code: u8, len: u8, cycles: u8) -> (r: Self)
        ensures
            r == (OP { code, instruction, len, cycles, mode }),
    {
        Self { code, instruction, len, cycles, mode }
    }
}

/// The opcode table: maps each of the 151 documented opcode bytes to its
/// entry; every other byte value is undefined and maps to `None`.
pub open spec fn entry_for(code: u8) -> Option<OP> {
    match code {
        0x69u8 => Some(OP { code: 0x69, instruction: Instruction::ADC, len: 2, cycles: 2, mode: AddressingMode::Immediate }),
        0x65u8 => Some(OP { code: 0x65, instruction: Instruction::ADC, len: 2, cycles: 3, mode: AddressingMode::ZeroPage }),
        0x75u8 => Some(OP { code: 0x75, instruction: Instruction::ADC, len: 2, cycles: 4, mode: AddressingMode::ZeroPageX }),
        0x6Du8 => Some(OP { code: 0x6D, instruction: Instruction::ADC, len: 3, cycles: 4, mode: AddressingMode::Absolute }),
        0x7Du8 => Some(OP { code: 0x7D, instruction: Instruction::ADC, len: 3, cycles: 4, mode: AddressingMode::AbsoluteX }),
        0x79u8 => Some(OP { code: 0x79, instruction: Instruction::ADC, len: 3, cycles: 4, mode: AddressingMode::AbsoluteY }),
        0x61u8 => Some(OP { code: 0x61, instruction: Instruction::ADC, len: 2, cycles: 6, mode: AddressingMode::IndirectX }),
        0x71u8 => Some(OP { code: 0x71, instruction: Instruction::ADC, len: 2, cycles: 5, mode: AddressingMode::IndirectY }),
        0x29u8 => Some(OP { code: 0x29, instruction: Instruction::AND, len: 2, cycles: 2, mode: AddressingMode::Immediate }),
        0x25u8 => Some(OP { code: 0x25, instruction: Instruction::AND, len: 2, cycles: 3, mode: AddressingMode::ZeroPage }),
        0x35u8 => Some(OP { code: 0x35, instruction: Instruction::AND, len: 2, cycles: 4, mode: AddressingMode::ZeroPageX }),
        0x2Du8 => Some(OP { code: 0x2D, instruction: Instruction::AND, len: 3, cycles: 4, mode: AddressingMode::Absolute }),
        0x3Du8 => Some(OP { code: 0x3D, instruction: Instruction::AND, len: 3, cycles: 4, mode: AddressingMode::AbsoluteX }),
        0x39u8 => Some(OP { code: 0x39, instruction: Instruction::AND, len: 3, cycles: 4, mode: AddressingMode::AbsoluteY }),
        0x21u8 => Some(OP { code: 0x21, instruction: Instruction::AND, len: 2, cycles: 6, mode: AddressingMode::IndirectX }),
        0x31u8 => Some(OP { code: 0x31, instruction: Instruction::AND, len: 2, cycles: 5, mode: AddressingMode::IndirectY }),
        0x0Au8 => Some(OP { code: 0x0A, instruction: Instruction::ASL, len: 1, cycles: 2, mode: AddressingMode::Accumulator }),
        0x06u8 => Some(OP { code: 0x06, instruction: Instruction::ASL, len: 2, cycles: 5, mode: AddressingMode::ZeroPage }),
        0x16u8 => Some(OP { code: 0x16, instruction: Instruction::ASL, len: 2, cycles: 6, mode: AddressingMode::ZeroPageX }),
        0x0Eu8 => Some(OP { code: 0x0E, instruction: Instruction::ASL, len: 3, cycles: 6, mode: AddressingMode::Absolute }),
        0x1Eu8 => Some(OP { code: 0x1E, instruction: Instruction::ASL, len: 3, cycles: 7, mode: AddressingMode::AbsoluteX }),
        0x90u8 => Some(OP { code: 0x90, instruction: Instruction::BCC, len: 2, cycles: 2, mode: AddressingMode::Relative }),
        0xB0u8 => Some(OP { code: 0xB0, instruction: Instruction::BCS, len: 2, cycles: 2, mode: AddressingMode::Relative }),
        0xF0u8 => Some(OP { code: 0xF0, instruction: Instruction::BEQ, len: 2, cycles: 2, mode: AddressingMode::Relative }),
        0x24u8 => Some(OP { code: 0x24, instruction: Instruction::BIT, len: 2, cycles: 3, mode: AddressingMode::ZeroPage }),
        0x2Cu8 => Some(OP { code: 0x2C, instruction: Instruction::BIT, len: 3, cycles: 4, mode: AddressingMode::Absolute }),
        0x30u8 => Some(OP { code: 0x30, instruction: Instruction::BMI, len: 2, cycles: 2, mode: AddressingMode::Relative }),
        0xD0u8 => Some(OP { code: 0xD0, instruction: Instruction::BNE, len: 2, cycles: 2, mode: AddressingMode::Relative }),
        0x10u8 => Some(OP { code: 0x10, instruction: Instruction::BPL, len: 2, cycles: 2, mode: AddressingMode::Relative }),
        0x00u8 => Some(OP { code: 0x00, instruction: Instruction::BRK, len: 1, cycles: 7, mode: AddressingMode::NoneAddressing }),
        0x50u8 => Some(OP { code: 0x50, instruction: Instruction::BVC, len: 2, cycles: 2, mode: AddressingMode::Relative }),
        0x70u8 => Some(OP { code: 0x70, instruction: Instruction::BVS, len: 2, cycles: 2, mode: AddressingMode::Relative }),
        0x18u8 => Some(OP { code: 0x18, instruction: Instruction::CLC, len: 1, cycles: 2, mode: AddressingMode::NoneAddressing }),
        0xD8u8 => Some(OP { code: 0xD8, instruction: Instruction::CLD, len: 1, cycles: 2, mode: AddressingMode::NoneAddressing }),
        0x58u8 => Some(OP { code: 0x58, instruction: Instruction::CLI, len: 1, cycles: 2, mode: AddressingMode::NoneAddressing }),
        0xB8u8 => Some(OP { code: 0xB8, instruction: Instruction::CLV, len: 1, cycles: 2, mode: AddressingMode::NoneAddressing }),
        0xC9u8 => Some(OP { code: 0xC9, instruction: Instruction::CMP, len: 2, cycles: 2, mode: AddressingMode::Immediate }),
        0xC5u8 => Some(OP { code: 0xC5, instruction: Instruction::CMP, len: 2, cycles: 3, mode: AddressingMode::ZeroPage }),
        0xD5u8 => Some(OP { code: 0xD5, instruction: Instruction::CMP, len: 2, cycles: 4, mode: AddressingMode::ZeroPageX }),
        0xCDu8 => Some(OP { code: 0xCD, instruction: Instruction::CMP, len: 3, cycles: 4, mode: AddressingMode::Absolute }),
        0xDDu8 => Some(OP { code: 0xDD, instruction: Instruction::CMP, len: 3, cycles: 4, mode: AddressingMode::AbsoluteX }),
        0xD9u8 => Some(OP { code: 0xD9, instruction: Instruction::CMP, len: 3, cycles: 4, mode: AddressingMode::AbsoluteY }),
        0xC1u8 => Some(OP { code: 0xC1, instruction: Instruction::CMP, len: 2, cycles: 6, mode: AddressingMode::IndirectX }),
        0xD1u8 => Some(OP { code: 0xD1, instruction: Instruction::CMP, len: 2, cycles: 5, mode: AddressingMode::IndirectY }),
        0xE0u8 => Some(OP { code: 0xE0, instruction: Instruction::CPX, len: 2, cycles: 2, mode: AddressingMode::Immediate }),
        0xE4u8 => Some(OP { code: 0xE4, instruction: Instruction::CPX, len: 2, cycles: 3, mode: AddressingMode::ZeroPage }),
        0xECu8 => Some(OP { code: 0xEC, instruction: Instruction::CPX, len: 3, cycles: 4, mode: AddressingMode::Absolute }),
        0xC0u8 => Some(OP { code: 0xC0, instruction: Instruction::CPY, len: 2, cycles: 2, mode: AddressingMode::Immediate }),
        0xC4u8 => Some(OP { code: 0xC4, instruction: Instruction::CPY, len: 2, cycles: 3, mode: AddressingMode::ZeroPage }),
        0xCCu8 => Some(OP { code: 0xCC, instruction: Instruction::CPY, len: 3, cycles: 4, mode: AddressingMode::Absolute }),
        0xC6u8 => Some(OP { code: 0xC6, instruction: Instruction::DEC, len: 2, cycles: 5, mode: AddressingMode::ZeroPage }),
        0xD6u8 => Some(OP { code: 0xD6, instruction: Instruction::DEC, len: 2, cycles: 6, mode: AddressingMode::ZeroPageX }),
        0xCEu8 => Some(OP { code: 0xCE, instruction: Instruction::DEC, len: 3, cycles: 6, mode: AddressingMode::Absolute }),
        0xDEu8 => Some(OP { code: 0xDE, instruction: Instruction::DEC, len: 3, cycles: 7, mode: AddressingMode::AbsoluteX }),
        0xCAu8 => Some(OP { code: 0xCA, instruction: Instruction::DEX, len: 1, cycles: 2, mode: AddressingMode::NoneAddressing }),
        0x88u8 => Some(OP { code: 0x88, instruction: Instruction::DEY, len: 1, cycles: 2, mode: AddressingMode::NoneAddressing }),
        0x49u8 => Some(OP { code: 0x49, instruction: Instruction::EOR, len: 2, cycles: 2, mode: AddressingMode::Immediate }),
        0x45u8 => Some(OP { code: 0x45, instruction: Instruction::EOR, len: 2, cycles: 3, mode: AddressingMode::ZeroPage }),
        0x55u8 => Some(OP { code: 0x55, instruction: Instruction::EOR, len: 2, cycles: 4, mode: AddressingMode::ZeroPageX }),
        0x4Du8 => Some(OP { code: 0x4D, instruction: Instruction::EOR, len: 3, cycles: 4, mode: AddressingMode::Absolute }),
        0x5Du8 => Some(OP { code: 0x5D, instruction: Instruction::EOR, len: 3, cycles: 4, mode: AddressingMode::AbsoluteX }),
        0x59u8 => Some(OP { code: 0x59, instruction: Instruction::EOR, len: 3, cycles: 4, mode: AddressingMode::AbsoluteY }),
        0x41u8 => Some(OP { code: 0x41, instruction: Instruction::EOR, len: 2, cycles: 6, mode: AddressingMode::IndirectX }),
        0x51u8 => Some(OP { code: 0x51, instruction: Instruction::EOR, len: 2, cycles: 5, mode: AddressingMode::IndirectY }),
        0xE6u8 => Some(OP { code: 0xE6, instruction: Instruction::INC, len: 2, cycles: 5, mode: AddressingMode::ZeroPage }),
        0xF6u8 => Some(OP { code: 0xF6, instruction: Instruction::INC, len: 2, cycles: 6, mode: AddressingMode::ZeroPageX }),
        0xEEu8 => Some(OP { code: 0xEE, instruction: Instruction::INC, len: 3, cycles: 6, mode: AddressingMode::Absolute }),
        0xFEu8 => Some(OP { code: 0xFE, instruction: Instruction::INC, len: 3, cycles: 7, mode: AddressingMode::AbsoluteX }),
        0xE8u8 => Some(OP { code: 0xE8, instruction: Instruction::INX, len: 1, cycles: 2, mode: AddressingMode::NoneAddressing }),
        0xC8u8 => Some(OP { code: 0xC8, instruction: Instruction::INY, len: 1, cycles: 2, mode: AddressingMode::NoneAddressing }),
        0x4Cu8 => Some(OP { code: 0x4C, instruction: Instruction::JMP, len: 3, cycles: 3, mode: AddressingMode::Absolute }),
        0x6Cu8 => Some(OP { code: 0x6C, instruction: Instruction::JMP, len: 3, cycles: 5, mode: AddressingMode::Indirect }),
        0x20u8 => Some(OP { code: 0x20, instruction: Instruction::JSR, len: 3, cycles: 6, mode: AddressingMode::Absolute }),
        0xA9u8 => Some(OP { code: 0xA9, instruction: Instruction::LDA, len: 2, cycles: 2, mode: AddressingMode::Immediate }),
        0xA5u8 => Some(OP { code: 0xA5, instruction: Instruction::LDA, len: 2, cycles: 3, mode: AddressingMode::ZeroPage }),
        0xB5u8 => Some(OP { code: 0xB5, instruction: Instruction::LDA, len: 2, cycles: 4, mode: AddressingMode::ZeroPageX }),
        0xADu8 => Some(OP { code: 0xAD, instruction: Instruction::LDA, len: 3, cycles: 4, mode: AddressingMode::Absolute }),
        0xBDu8 => Some(OP { code: 0xBD, instruction: Instruction::LDA, len: 3, cycles: 4, mode: AddressingMode::AbsoluteX }),
        0xB9u8 => Some(OP { code: 0xB9, instruction: Instruction::LDA, len: 3, cycles: 4, mode: AddressingMode::AbsoluteY }),
        0xA1u8 => Some(OP { code: 0xA1, instruction: Instruction::LDA, len: 2, cycles: 6, mode: AddressingMode::IndirectX }),
        0xB1u8 => Some(OP { code: 0xB1, instruction: Instruction::LDA, len: 2, cycles: 5, mode: AddressingMode::IndirectY }),
        0xA2u8 => Some(OP { code: 0xA2, instruction: Instruction::LDX, len: 2, cycles: 2, mode: AddressingMode::Immediate }),
        0xA6u8 => Some(OP { code: 0xA6, instruction: Instruction::LDX, len: 2, cycles: 3, mode: AddressingMode::ZeroPage }),
        0xB6u8 => Some(OP { code: 0xB6, instruction: Instruction::LDX, len: 2, cycles: 4, mode: AddressingMode::ZeroPageY }),
        0xAEu8 => Some(OP { code: 0xAE, instruction: Instruction::LDX, len: 3, cycles: 4, mode: AddressingMode::Absolute }),
        0xBEu8 => Some(OP { code: 0xBE, instruction: Instruction::LDX, len: 3, cycles: 4, mode: AddressingMode::AbsoluteY }),
        0xA0u8 => Some(OP { code: 0xA0, instruction: Instruction::LDY, len: 2, cycles: 2, mode: AddressingMode::Immediate }),
        0xA4u8 => Some(OP { code: 0xA4, instruction: Instruction::LDY, len: 2, cycles: 3, mode: AddressingMode::ZeroPage }),
        0xB4u8 => Some(OP { code: 0xB4, instruction: Instruction::LDY, len: 2, cycles: 4, mode: AddressingMode::ZeroPageX }),
        0xACu8 => Some(OP { code: 0xAC, instruction: Instruction::LDY, len: 3, cycles: 4, mode: AddressingMode::Absolute }),
        0xBCu8 => Some(OP { code: 0xBC, instruction: Instruction::LDY, len: 3, cycles: 4, mode: AddressingMode::AbsoluteX }),
        0x4Au8 => Some(OP { code: 0x4A, instruction: Instruction::LSR, len: 1, cycles: 2, mode: AddressingMode::Accumulator }),
        0x46u8 => Some(OP { code: 0x46, instruction: Instruction::LSR, len: 2, cycles: 5, mode: AddressingMode::ZeroPage }),
        0x56u8 => Some(OP { code: 0x56, instruction: Instruction::LSR, len: 2, cycles: 6, mode: AddressingMode::ZeroPageX }),
        0x4Eu8 => Some(OP { code: 0x4E, instruction: Instruction::LSR, len: 3, cycles: 6, mode: AddressingMode::Absolute }),
        0x5Eu8 => Some(OP { code: 0x5E, instruction: Instruction::LSR, len: 3, cycles: 7, mode: AddressingMode::AbsoluteX }),
        0xEAu8 => Some(OP { code: 0xEA, instruction: Instruction::NOP, len: 1, cycles: 2, mode: AddressingMode::NoneAddressing }),
        0x09u8 => Some(OP { code: 0x09, instruction: Instruction::ORA, len: 2, cycles: 2, mode: AddressingMode::Immediate }),
        0x05u8 => Some(OP { code: 0x05, instruction: Instruction::ORA, len: 2, cycles: 3, mode: AddressingMode::ZeroPage }),
        0x15u8 => Some(OP { code: 0x15, instruction: Instruction::ORA, len: 2, cycles: 4, mode: AddressingMode::ZeroPageX }),
        0x0Du8 => Some(OP { code: 0x0D, instruction: Instruction::ORA, len: 3, cycles: 4, mode: AddressingMode::Absolute }),
        0x1Du8 => Some(OP { code: 0x1D, instruction: Instruction::ORA, len: 3, cycles: 4, mode: AddressingMode::AbsoluteX }),
        0x19u8 => Some(OP { code: 0x19, instruction: Instruction::ORA, len: 3, cycles: 4, mode: AddressingMode::AbsoluteY }),
        0x01u8 => Some(OP { code: 0x01, instruction: Instruction::ORA, len: 2, cycles: 6, mode: AddressingMode::IndirectX }),
        0x11u8 => Some(OP { code: 0x11, instruction: Instruction::ORA, len: 2, cycles: 5, mode: AddressingMode::IndirectY }),
        0x48u8 => Some(OP { code: 0x48, instruction: Instruction::PHA, len: 1, cycles: 3, mode: AddressingMode::NoneAddressing }),
        0x08u8 => Some(OP { code: 0x08, instruction: Instruction::PHP, len: 1, cycles: 3, mode: AddressingMode::NoneAddressing }),
        0x68u8 => Some(OP { code: 0x68, instruction: Instruction::PLA, len: 1, cycles: 4, mode: AddressingMode::NoneAddressing }),
        0x28u8 => Some(OP { code: 0x28, instruction: Instruction::PLP, len: 1, cycles: 4, mode: AddressingMode::NoneAddressing }),
        0x2Au8 => Some(OP { code: 0x2A, instruction: Instruction::ROL, len: 1, cycles: 2, mode: AddressingMode::Accumulator }),
        0x26u8 => Some(OP { code: 0x26, instruction: Instruction::ROL, len: 2, cycles: 5, mode: AddressingMode::ZeroPage }),
        0x36u8 => Some(OP { code: 0x36, instruction: Instruction::ROL, len: 2, cycles: 6, mode: AddressingMode::ZeroPageX }),
        0x2Eu8 => Some(OP { code: 0x2E, instruction: Instruction::ROL, len: 3, cycles: 6, mode: AddressingMode::Absolute }),
        0x3Eu8 => Some(OP { code: 0x3E, instruction: Instruction::ROL, len: 3, cycles: 7, mode: AddressingMode::AbsoluteX }),
        0x6Au8 => Some(OP { code: 0x6A, instruction: Instruction::ROR, len: 1, cycles: 2, mode: AddressingMode::Accumulator }),
        0x66u8 => Some(OP { code: 0x66, instruction: Instruction::ROR, len: 2, cycles: 5, mode: AddressingMode::ZeroPage }),
        0x76u8 => Some(OP { code: 0x76, instruction: Instruction::ROR, len: 2, cycles: 6, mode: AddressingMode::ZeroPageX }),
        0x6Eu8 => Some(OP { code: 0x6E, instruction: Instruction::ROR, len: 3, cycles: 6, mode: AddressingMode::Absolute }),
        0x7Eu8 => Some(OP { code: 0x7E, instruction: Instruction::ROR, len: 3, cycles: 7, mode: AddressingMode::AbsoluteX }),
        0x40u8 => Some(OP { code: 0x40, instruction: Instruction::RTI, len: 1, cycles: 6, mode: AddressingMode::NoneAddressing }),
        0x60u8 => Some(OP { code: 0x60, instruction: Instruction::RTS, len: 1, cycles: 6, mode: AddressingMode::NoneAddressing }),
        0xE9u8 => Some(OP { code: 0xE9, instruction: Instruction::SBC, len: 2, cycles: 2, mode: AddressingMode::Immediate }),
        0xE5u8 => Some(OP { code: 0xE5, instruction: Instruction::SBC, len: 2, cycles: 3, mode: AddressingMode::ZeroPage }),
        0xF5u8 => Some(OP { code: 0xF5, instruction: Instruction::SBC, len: 2, cycles: 4, mode: AddressingMode::ZeroPageX }),
        0xEDu8 => Some(OP { code: 0xED, instruction: Instruction::SBC, len: 3, cycles: 4, mode: AddressingMode::Absolute }),
        0xFDu8 => Some(OP { code: 0xFD, instruction: Instruction::SBC, len: 3, cycles: 4, mode: AddressingMode::AbsoluteX }),
        0xF9u8 => Some(OP { code: 0xF9, instruction: Instruction::SBC, len: 3, cycles: 4, mode: AddressingMode::AbsoluteY }),
        0xE1u8 => Some(OP { code: 0xE1, instruction: Instruction::SBC, len: 2, cycles: 6, mode: AddressingMode::IndirectX }),
        0xF1u8 => Some(OP { code: 0xF1, instruction: Instruction::SBC, len: 2, cycles: 5, mode: AddressingMode::IndirectY }),
        0x38u8 => Some(OP { code: 0x38, instruction: Instruction::SEC, len: 1, cycles: 2, mode: AddressingMode::NoneAddressing }),
        0xF8u8 => Some(OP { code: 0xF8, instruction: Instruction::SED, len: 1, cycles: 2, mode: AddressingMode::NoneAddressing }),
        0x78u8 => Some(OP { code: 0x78, instruction: Instruction::SEI, len: 1, cycles: 2, mode: AddressingMode::NoneAddressing }),
        0x85u8 => Some(OP { code: 0x85, instruction: Instruction::STA, len: 2, cycles: 3, mode: AddressingMode::ZeroPage }),
        0x95u8 => Some(OP { code: 0x95, instruction: Instruction::STA, len: 2, cycles: 4, mode: AddressingMode::ZeroPageX }),
        0x8Du8 => Some(OP { code: 0x8D, instruction: Instruction::STA, len: 3, cycles: 4, mode: AddressingMode::Absolute }),
        0x9Du8 => Some(OP { code: 0x9D, instruction: Instruction::STA, len: 3, cycles: 5, mode: AddressingMode::AbsoluteX }),
        0x99u8 => Some(OP { code: 0x99, instruction: Instruction::STA, len: 3, cycles: 5, mode: AddressingMode::AbsoluteY }),
        0x81u8 => Some(OP { code: 0x81, instruction: Instruction::STA, len: 2, cycles: 6, mode: AddressingMode::IndirectX }),
        0x91u8 => Some(OP { code: 0x91, instruction: Instruction::STA, len: 2, cycles: 6, mode: AddressingMode::IndirectY }),
        0x86u8 => Some(OP { code: 0x86, instruction: Instruction::STX, len: 2, cycles: 3, mode: AddressingMode::ZeroPage }),
        0x96u8 => Some(OP { code: 0x96, instruction: Instruction::STX, len: 2, cycles: 4, mode: AddressingMode::ZeroPageY }),
        0x8Eu8 => Some(OP { code: 0x8E, instruction: Instruction::STX, len: 3, cycles: 4, mode: AddressingMode::Absolute }),
        0x84u8 => Some(OP { code: 0x84, instruction: Instruction::STY, len: 2, cycles: 3, mode: AddressingMode::ZeroPage }),
        0x94u8 => Some(OP { code: 0x94, instruction: Instruction::STY, len: 2, cycles: 4, mode: AddressingMode::ZeroPageX }),
        0x8Cu8 => Some(OP { code: 0x8C, instruction: Instruction::STY, len: 3, cycles: 4, mode: AddressingMode::Absolute }),
        0xAAu8 => Some(OP { code: 0xAA, instruction: Instruction::TAX, len: 1, cycles: 2, mode: AddressingMode::NoneAddressing }),
        0xA8u8 => Some(OP { code: 0xA8, instruction: Instruction::TAY, len: 1, cycles: 2, mode: AddressingMode::NoneAddressing }),
        0xBAu8 => Some(OP { code: 0xBA, instruction: Instruction::TSX, len: 1, cycles: 2, mode: AddressingMode::NoneAddressing }),
        0x8Au8 => Some(OP { code: 0x8A, instruction: Instruction::TXA, len: 1, cycles: 2, mode: AddressingMode::NoneAddressing }),
        0x9Au8 => Some(OP { code: 0x9A, instruction: Instruction::TXS, len: 1, cycles: 2, mode: AddressingMode::NoneAddressing }),
        0x98u8 => Some(OP { code: 0x98, instruction: Instruction::TYA, len: 1, cycles: 2, mode: AddressingMode::NoneAddressing }),
        _ => None,
    }
}

/// Looks an opcode byte up in the table; `None` marks an undefined opcode.
pub fn lookup(code: u8) -> (r: Option<OP>)
    ensures
        r == entry_for(code),
{
    match code {
        0x69u8 => Some(OP { code: 0x69, instruction: Instruction::ADC, len: 2, cycles: 2, mode: AddressingMode::Immediate }),
        0x65u8 => Some(OP { code: 0x65, instruction: Instruction::ADC, len: 2, cycles: 3, mode: AddressingMode::ZeroPage }),
        0x75u8 => Some(OP { code: 0x75, instruction: Instruction::ADC, len: 2, cycles: 4, mode: AddressingMode::ZeroPageX }),
        0x6Du8 => Some(OP { code: 0x6D, instruction: Instruction::ADC, len: 3, cycles: 4, mode: AddressingMode::Absolute }),
        0x7Du8 => Some(OP { code: 0x7D, instruction: Instruction::ADC, len: 3, cycles: 4, mode: AddressingMode::AbsoluteX }),
        0x79u8 => Some(OP { code: 0x79, instruction: Instruction::ADC, len: 3, cycles: 4, mode: AddressingMode::AbsoluteY }),
        0x61u8 => Some(OP { code: 0x61, instruction: Instruction::ADC, len: 2, cycles: 6, mode: AddressingMode::IndirectX }),
        0x71u8 => Some(OP { code: 0x71, instruction: Instruction::ADC, len: 2, cycles: 5, mode: AddressingMode::IndirectY }),
        0x29u8 => Some(OP { code: 0x29, instruction: Instruction::AND, len: 2, cycles: 2, mode: AddressingMode::Immediate }),
        0x25u8 => Some(OP { code: 0x25, instruction: Instruction::AND, len: 2, cycles: 3, mode: AddressingMode::ZeroPage }),
        0x35u8 => Some(OP { code: 0x35, instruction: Instruction::AND, len: 2, cycles: 4, mode: AddressingMode::ZeroPageX }),
        0x2Du8 => Some(OP { code: 0x2D, instruction: Instruction::AND, len: 3, cycles: 4, mode: AddressingMode::Absolute }),
        0x3Du8 => Some(OP { code: 0x3D, instruction: Instruction::AND, len: 3, cycles: 4, mode: AddressingMode::AbsoluteX }),
        0x39u8 => Some(OP { code: 0x39, instruction: Instruction::AND, len: 3, cycles: 4, mode: AddressingMode::AbsoluteY }),
        0x21u8 => Some(OP { code: 0x21, instruction: Instruction::AND, len: 2, cycles: 6, mode: AddressingMode::IndirectX }),
        0x31u8 => Some(OP { code: 0x31, instruction: Instruction::AND, len: 2, cycles: 5, mode: AddressingMode::IndirectY }),
        0x0Au8 => Some(OP { code: 0x0A, instruction: Instruction::ASL, len: 1, cycles: 2, mode: AddressingMode::Accumulator }),
        0x06u8 => Some(OP { code: 0x06, instruction: Instruction::ASL, len: 2, cycles: 5, mode: AddressingMode::ZeroPage }),
        0x16u8 => Some(OP { code: 0x16, instruction: Instruction::ASL, len: 2, cycles: 6, mode: AddressingMode::ZeroPageX }),
        0x0Eu8 => Some(OP { code: 0x0E, instruction: Instruction::ASL, len: 3, cycles: 6, mode: AddressingMode::Absolute }),
        0x1Eu8 => Some(OP { code: 0x1E, instruction: Instruction::ASL, len: 3, cycles: 7, mode: AddressingMode::AbsoluteX }),
        0x90u8 => Some(OP { code: 0x90, instruction: Instruction::BCC, len: 2, cycles: 2, mode: AddressingMode::Relative }),
        0xB0u8 => Some(OP { code: 0xB0, instruction: Instruction::BCS, len: 2, cycles: 2, mode: AddressingMode::Relative }),
        0xF0u8 => Some(OP { code: 0xF0, instruction: Instruction::BEQ, len: 2, cycles: 2, mode: AddressingMode::Relative }),
        0x24u8 => Some(OP { code: 0x24, instruction: Instruction::BIT, len: 2, cycles: 3, mode: AddressingMode::ZeroPage }),
        0x2Cu8 => Some(OP { code: 0x2C, instruction: Instruction::BIT, len: 3, cycles: 4, mode: AddressingMode::Absolute }),
        0x30u8 => Some(OP { code: 0x30, instruction: Instruction::BMI, len: 2, cycles: 2, mode: AddressingMode::Relative }),
        0xD0u8 => Some(OP { code: 0xD0, instruction: Instruction::BNE, len: 2, cycles: 2, mode: AddressingMode::Relative }),
        0x10u8 => Some(OP { code: 0x10, instruction: Instruction::BPL, len: 2, cycles: 2, mode: AddressingMode::Relative }),
        0x00u8 => Some(OP { code: 0x00, instruction: Instruction::BRK, len: 1, cycles: 7, mode: AddressingMode::NoneAddressing }),
        0x50u8 => Some(OP { code: 0x50, instruction: Instruction::BVC, len: 2, cycles: 2, mode: AddressingMode::Relative }),
        0x70u8 => Some(OP { code: 0x70, instruction: Instruction::BVS, len: 2, cycles: 2, mode: AddressingMode::Relative }),
        0x18u8 => Some(OP { code: 0x18, instruction: Instruction::CLC, len: 1, cycles: 2, mode: AddressingMode::NoneAddressing }),
        0xD8u8 => Some(OP { code: 0xD8, instruction: Instruction::CLD, len: 1, cycles: 2, mode: AddressingMode::NoneAddressing }),
        0x58u8 => Some(OP { code: 0x58, instruction: Instruction::CLI, len: 1, cycles: 2, mode: AddressingMode::NoneAddressing }),
        0xB8u8 => Some(OP { code: 0xB8, instruction: Instruction::CLV, len: 1, cycles: 2, mode: AddressingMode::NoneAddressing }),
        0xC9u8 => Some(OP { code: 0xC9, instruction: Instruction::CMP, len: 2, cycles: 2, mode: AddressingMode::Immediate }),
        0xC5u8 => Some(OP { code: 0xC5, instruction: Instruction::CMP, len: 2, cycles: 3, mode: AddressingMode::ZeroPage }),
        0xD5u8 => Some(OP { code: 0xD5, instruction: Instruction::CMP, len: 2, cycles: 4, mode: AddressingMode::ZeroPageX }),
        0xCDu8 => Some(OP { code: 0xCD, instruction: Instruction::CMP, len: 3, cycles: 4, mode: AddressingMode::Absolute }),
        0xDDu8 => Some(OP { code: 0xDD, instruction: Instruction::CMP, len: 3, cycles: 4, mode: AddressingMode::AbsoluteX }),
        0xD9u8 => Some(OP { code: 0xD9, instruction: Instruction::CMP, len: 3, cycles: 4, mode: AddressingMode::AbsoluteY }),
        0xC1u8 => Some(OP { code: 0xC1, instruction: Instruction::CMP, len: 2, cycles: 6, mode: AddressingMode::IndirectX }),
        0xD1u8 => Some(OP { code: 0xD1, instruction: Instruction::CMP, len: 2, cycles: 5, mode: AddressingMode::IndirectY }),
        0xE0u8 => Some(OP { code: 0xE0, instruction: Instruction::CPX, len: 2, cycles: 2, mode: AddressingMode::Immediate }),
        0xE4u8 => Some(OP { code: 0xE4, instruction: Instruction::CPX, len: 2, cycles: 3, mode: AddressingMode::ZeroPage }),
        0xECu8 => Some(OP { code: 0xEC, instruction: Instruction::CPX, len: 3, cycles: 4, mode: AddressingMode::Absolute }),
        0xC0u8 => Some(OP { code: 0xC0, instruction: Instruction::CPY, len: 2, cycles: 2, mode: AddressingMode::Immediate }),
        0xC4u8 => Some(OP { code: 0xC4, instruction: Instruction::CPY, len: 2, cycles: 3, mode: AddressingMode::ZeroPage }),
        0xCCu8 => Some(OP { code: 0xCC, instruction: Instruction::CPY, len: 3, cycles: 4, mode: AddressingMode::Absolute }),
        0xC6u8 => Some(OP { code: 0xC6, instruction: Instruction::DEC, len: 2, cycles: 5, mode: AddressingMode::ZeroPage }),
        0xD6u8 => Some(OP { code: 0xD6, instruction: Instruction::DEC, len: 2, cycles: 6, mode: AddressingMode::ZeroPageX }),
        0xCEu8 => Some(OP { code: 0xCE, instruction: Instruction::DEC, len: 3, cycles: 6, mode: AddressingMode::Absolute }),
        0xDEu8 => Some(OP { code: 0xDE, instruction: Instruction::DEC, len: 3, cycles: 7, mode: AddressingMode::AbsoluteX }),
        0xCAu8 => Some(OP { code: 0xCA, instruction: Instruction::DEX, len: 1, cycles: 2, mode: AddressingMode::NoneAddressing }),
        0x88u8 => Some(OP { code: 0x88, instruction: Instruction::DEY, len: 1, cycles: 2, mode: AddressingMode::NoneAddressing }),
        0x49u8 => Some(OP { code: 0x49, instruction: Instruction::EOR, len: 2, cycles: 2, mode: AddressingMode::Immediate }),
        0x45u8 => Some(OP { code: 0x45, instruction: Instruction::EOR, len: 2, cycles: 3, mode: AddressingMode::ZeroPage }),
        0x55u8 => Some(OP { code: 0x55, instruction: Instruction::EOR, len: 2, cycles: 4, mode: AddressingMode::ZeroPageX }),
        0x4Du8 => Some(OP { code: 0x4D, instruction: Instruction::EOR, len: 3, cycles: 4, mode: AddressingMode::Absolute }),
        0x5Du8 => Some(OP { code: 0x5D, instruction: Instruction::EOR, len: 3, cycles: 4, mode: AddressingMode::AbsoluteX }),
        0x59u8 => Some(OP { code: 0x59, instruction: Instruction::EOR, len: 3, cycles: 4, mode: AddressingMode::AbsoluteY }),
        0x41u8 => Some(OP { code: 0x41, instruction: Instruction::EOR, len: 2, cycles: 6, mode: AddressingMode::IndirectX }),
        0x51u8 => Some(OP { code: 0x51, instruction: Instruction::EOR, len: 2, cycles: 5, mode: AddressingMode::IndirectY }),
        0xE6u8 => Some(OP { code: 0xE6, instruction: Instruction::INC, len: 2, cycles: 5, mode: AddressingMode::ZeroPage }),
        0xF6u8 => Some(OP { code: 0xF6, instruction: Instruction::INC, len: 2, cycles: 6, mode: AddressingMode::ZeroPageX }),
        0xEEu8 => Some(OP { code: 0xEE, instruction: Instruction::INC, len: 3, cycles: 6, mode: AddressingMode::Absolute }),
        0xFEu8 => Some(OP { code: 0xFE, instruction: Instruction::INC, len: 3, cycles: 7, mode: AddressingMode::AbsoluteX }),
        0xE8u8 => Some(OP { code: 0xE8, instruction: Instruction::INX, len: 1, cycles: 2, mode: AddressingMode::NoneAddressing }),
        0xC8u8 => Some(OP { code: 0xC8, instruction: Instruction::INY, len: 1, cycles: 2, mode: AddressingMode::NoneAddressing }),
        0x4Cu8 => Some(OP { code: 0x4C, instruction: Instruction::JMP, len: 3, cycles: 3, mode: AddressingMode::Absolute }),
        0x6Cu8 => Some(OP { code: 0x6C, instruction: Instruction::JMP, len: 3, cycles: 5, mode: AddressingMode::Indirect }),
        0x20u8 => Some(OP { code: 0x20, instruction: Instruction::JSR, len: 3, cycles: 6, mode: AddressingMode::Absolute }),
        0xA9u8 => Some(OP { code: 0xA9, instruction: Instruction::LDA, len: 2, cycles: 2, mode: AddressingMode::Immediate }),
        0xA5u8 => Some(OP { code: 0xA5, instruction: Instruction::LDA, len: 2, cycles: 3, mode: AddressingMode::ZeroPage }),
        0xB5u8 => Some(OP { code: 0xB5, instruction: Instruction::LDA, len: 2, cycles: 4, mode: AddressingMode::ZeroPageX }),
        0xADu8 => Some(OP { code: 0xAD, instruction: Instruction::LDA, len: 3, cycles: 4, mode: AddressingMode::Absolute }),
        0xBDu8 => Some(OP { code: 0xBD, instruction: Instruction::LDA, len: 3, cycles: 4, mode: AddressingMode::AbsoluteX }),
        0xB9u8 => Some(OP { code: 0xB9, instruction: Instruction::LDA, len: 3, cycles: 4, mode: AddressingMode::AbsoluteY }),
        0xA1u8 => Some(OP { code: 0xA1, instruction: Instruction::LDA, len: 2, cycles: 6, mode: AddressingMode::IndirectX }),
        0xB1u8 => Some(OP { code: 0xB1, instruction: Instruction::LDA, len: 2, cycles: 5, mode: AddressingMode::IndirectY }),
        0xA2u8 => Some(OP { code: 0xA2, instruction: Instruction::LDX, len: 2, cycles: 2, mode: AddressingMode::Immediate }),
        0xA6u8 => Some(OP { code: 0xA6, instruction: Instruction::LDX, len: 2, cycles: 3, mode: AddressingMode::ZeroPage }),
        0xB6u8 => Some(OP { code: 0xB6, instruction: Instruction::LDX, len: 2, cycles: 4, mode: AddressingMode::ZeroPageY }),
        0xAEu8 => Some(OP { code: 0xAE, instruction: Instruction::LDX, len: 3, cycles: 4, mode: AddressingMode::Absolute }),
        0xBEu8 => Some(OP { code: 0xBE, instruction: Instruction::LDX, len: 3, cycles: 4, mode: AddressingMode::AbsoluteY }),
        0xA0u8 => Some(OP { code: 0xA0, instruction: Instruction::LDY, len: 2, cycles: 2, mode: AddressingMode::Immediate }),
        0xA4u8 => Some(OP { code: 0xA4, instruction: Instruction::LDY, len: 2, cycles: 3, mode: AddressingMode::ZeroPage }),
        0xB4u8 => Some(OP { code: 0xB4, instruction: Instruction::LDY, len: 2, cycles: 4, mode: AddressingMode::ZeroPageX }),
        0xACu8 => Some(OP { code: 0xAC, instruction: Instruction::LDY, len: 3, cycles: 4, mode: AddressingMode::Absolute }),
        0xBCu8 => Some(OP { code: 0xBC, instruction: Instruction::LDY, len: 3, cycles: 4, mode: AddressingMode::AbsoluteX }),
        0x4Au8 => Some(OP { code: 0x4A, instruction: Instruction::LSR, len: 1, cycles: 2, mode: AddressingMode::Accumulator }),
        0x46u8 => Some(OP { code: 0x46, instruction: Instruction::LSR, len: 2, cycles: 5, mode: AddressingMode::ZeroPage }),
        0x56u8 => Some(OP { code: 0x56, instruction: Instruction::LSR, len: 2, cycles: 6, mode: AddressingMode::ZeroPageX }),
        0x4Eu8 => Some(OP { code: 0x4E, instruction: Instruction::LSR, len: 3, cycles: 6, mode: AddressingMode::Absolute }),
        0x5Eu8 => Some(OP { code: 0x5E, instruction: Instruction::LSR, len: 3, cycles: 7, mode: AddressingMode::AbsoluteX }),
        0xEAu8 => Some(OP { code: 0xEA, instruction: Instruction::NOP, len: 1, cycles: 2, mode: AddressingMode::NoneAddressing }),
        0x09u8 => Some(OP { code: 0x09, instruction: Instruction::ORA, len: 2, cycles: 2, mode: AddressingMode::Immediate }),
        0x05u8 => Some(OP { code: 0x05, instruction: Instruction::ORA, len: 2, cycles: 3, mode: AddressingMode::ZeroPage }),
        0x15u8 => Some(OP { code: 0x15, instruction: Instruction::ORA, len: 2, cycles: 4, mode: AddressingMode::ZeroPageX }),
        0x0Du8 => Some(OP { code: 0x0D, instruction: Instruction::ORA, len: 3, cycles: 4, mode: AddressingMode::Absolute }),
        0x1Du8 => Some(OP { code: 0x1D, instruction: Instruction::ORA, len: 3, cycles: 4, mode: AddressingMode::AbsoluteX }),
        0x19u8 => Some(OP { code: 0x19, instruction: Instruction::ORA, len: 3, cycles: 4, mode: AddressingMode::AbsoluteY }),
        0x01u8 => Some(OP { code: 0x01, instruction: Instruction::ORA, len: 2, cycles: 6, mode: AddressingMode::IndirectX }),
        0x11u8 => Some(OP { code: 0x11, instruction: Instruction::ORA, len: 2, cycles: 5, mode: AddressingMode::IndirectY }),
        0x48u8 => Some(OP { code: 0x48, instruction: Instruction::PHA, len: 1, cycles: 3, mode: AddressingMode::NoneAddressing }),
        0x08u8 => Some(OP { code: 0x08, instruction: Instruction::PHP, len: 1, cycles: 3, mode: AddressingMode::NoneAddressing }),
        0x68u8 => Some(OP { code: 0x68, instruction: Instruction::PLA, len: 1, cycles: 4, mode: AddressingMode::NoneAddressing }),
        0x28u8 => Some(OP { code: 0x28, instruction: Instruction::PLP, len: 1, cycles: 4, mode: AddressingMode::NoneAddressing }),
        0x2Au8 => Some(OP { code: 0x2A, instruction: Instruction::ROL, len: 1, cycles: 2, mode: AddressingMode::Accumulator }),
        0x26u8 => Some(OP { code: 0x26, instruction: Instruction::ROL, len: 2, cycles: 5, mode: AddressingMode::ZeroPage }),
        0x36u8 => Some(OP { code: 0x36, instruction: Instruction::ROL, len: 2, cycles: 6, mode: AddressingMode::ZeroPageX }),
        0x2Eu8 => Some(OP { code: 0x2E, instruction: Instruction::ROL, len: 3, cycles: 6, mode: AddressingMode::Absolute }),
        0x3Eu8 => Some(OP { code: 0x3E, instruction: Instruction::ROL, len: 3, cycles: 7, mode: AddressingMode::AbsoluteX }),
        0x6Au8 => Some(OP { code: 0x6A, instruction: Instruction::ROR, len: 1, cycles: 2, mode: AddressingMode::Accumulator }),
        0x66u8 => Some(OP { code: 0x66, instruction: Instruction::ROR, len: 2, cycles: 5, mode: AddressingMode::ZeroPage }),
        0x76u8 => Some(OP { code: 0x76, instruction: Instruction::ROR, len: 2, cycles: 6, mode: AddressingMode::ZeroPageX }),
        0x6Eu8 => Some(OP { code: 0x6E, instruction: Instruction::ROR, len: 3, cycles: 6, mode: AddressingMode::Absolute }),
        0x7Eu8 => Some(OP { code: 0x7E, instruction: Instruction::ROR, len: 3, cycles: 7, mode: AddressingMode::AbsoluteX }),
        0x40u8 => Some(OP { code: 0x40, instruction: Instruction::RTI, len: 1, cycles: 6, mode: AddressingMode::NoneAddressing }),
        0x60u8 => Some(OP { code: 0x60, instruction: Instruction::RTS, len: 1, cycles: 6, mode: AddressingMode::NoneAddressing }),
        0xE9u8 => Some(OP { code: 0xE9, instruction: Instruction::SBC, len: 2, cycles: 2, mode: AddressingMode::Immediate }),
        0xE5u8 => Some(OP { code: 0xE5, instruction: Instruction::SBC, len: 2, cycles: 3, mode: AddressingMode::ZeroPage }),
        0xF5u8 => Some(OP { code: 0xF5, instruction: Instruction::SBC, len: 2, cycles: 4, mode: AddressingMode::ZeroPageX }),
        0xEDu8 => Some(OP { code: 0xED, instruction: Instruction::SBC, len: 3, cycles: 4, mode: AddressingMode::Absolute }),
        0xFDu8 => Some(OP { code: 0xFD, instruction: Instruction::SBC, len: 3, cycles: 4, mode: AddressingMode::AbsoluteX }),
        0xF9u8 => Some(OP { code: 0xF9, instruction: Instruction::SBC, len: 3, cycles: 4, mode: AddressingMode::AbsoluteY }),
        0xE1u8 => Some(OP { code: 0xE1, instruction: Instruction::SBC, len: 2, cycles: 6, mode: AddressingMode::IndirectX }),
        0xF1u8 => Some(OP { code: 0xF1, instruction: Instruction::SBC, len: 2, cycles: 5, mode: AddressingMode::IndirectY }),
        0x38u8 => Some(OP { code: 0x38, instruction: Instruction::SEC, len: 1, cycles: 2, mode: AddressingMode::NoneAddressing }),
        0xF8u8 => Some(OP { code: 0xF8, instruction: Instruction::SED, len: 1, cycles: 2, mode: AddressingMode::NoneAddressing }),
        0x78u8 => Some(OP { code: 0x78, instruction: Instruction::SEI, len: 1, cycles: 2, mode: AddressingMode::NoneAddressing }),
        0x85u8 => Some(OP { code: 0x85, instruction: Instruction::STA, len: 2, cycles: 3, mode: AddressingMode::ZeroPage }),
        0x95u8 => Some(OP { code: 0x95, instruction: Instruction::STA, len: 2, cycles: 4, mode: AddressingMode::ZeroPageX }),
        0x8Du8 => Some(OP { code: 0x8D, instruction: Instruction::STA, len: 3, cycles: 4, mode: AddressingMode::Absolute }),
        0x9Du8 => Some(OP { code: 0x9D, instruction: Instruction::STA, len: 3, cycles: 5, mode: AddressingMode::AbsoluteX }),
        0x99u8 => Some(OP { code: 0x99, instruction: Instruction::STA, len: 3, cycles: 5, mode: AddressingMode::AbsoluteY }),
        0x81u8 => Some(OP { code: 0x81, instruction: Instruction::STA, len: 2, cycles: 6, mode: AddressingMode::IndirectX }),
        0x91u8 => Some(OP { code: 0x91, instruction: Instruction::STA, len: 2, cycles: 6, mode: AddressingMode::IndirectY }),
        0x86u8 => Some(OP { code: 0x86, instruction: Instruction::STX, len: 2, cycles: 3, mode: AddressingMode::ZeroPage }),
        0x96u8 => Some(OP { code: 0x96, instruction: Instruction::STX, len: 2, cycles: 4, mode: AddressingMode::ZeroPageY }),
        0x8Eu8 => Some(OP { code: 0x8E, instruction: Instruction::STX, len: 3, cycles: 4, mode: AddressingMode::Absolute }),
        0x84u8 => Some(OP { code: 0x84, instruction: Instruction::STY, len: 2, cycles: 3, mode: AddressingMode::ZeroPage }),
        0x94u8 => Some(OP { code: 0x94, instruction: Instruction::STY, len: 2, cycles: 4, mode: AddressingMode::ZeroPageX }),
        0x8Cu8 => Some(OP { code: 0x8C, instruction: Instruction::STY, len: 3, cycles: 4, mode: AddressingMode::Absolute }),
        0xAAu8 => Some(OP { code: 0xAA, instruction: Instruction::TAX, len: 1, cycles: 2, mode: AddressingMode::NoneAddressing }),
        0xA8u8 => Some(OP { code: 0xA8, instruction: Instruction::TAY, len: 1, cycles: 2, mode: AddressingMode::NoneAddressing }),
        0xBAu8 => Some(OP { code: 0xBA, instruction: Instruction::TSX, len: 1, cycles: 2, mode: AddressingMode::NoneAddressing }),
        0x8Au8 => Some(OP { code: 0x8A, instruction: Instruction::TXA, len: 1, cycles: 2, mode: AddressingMode::NoneAddressing }),
        0x9Au8 => Some(OP { code: 0x9A, instruction: Instruction::TXS, len: 1, cycles: 2, mode: AddressingMode::NoneAddressing }),
        0x98u8 => Some(OP { code: 0x98, instruction: Instruction::TYA, len: 1, cycles: 2, mode: AddressingMode::NoneAddressing }),
        _ => None,
    }
}

} // verus!
