//! The mathematical model of the processor: a ghost record of the
//! registers, flags, memory image and cycle counter, and a total spec-level
//! description of what one fetch-decode-execute step does to it. The
//! executable engine in `cpu` is proved to follow `step_model` exactly.
use vstd::prelude::*;

verus! {

use crate::flags::Flags;
use crate::flags::flags_with_zn;
use crate::flags::spec_pack_flags;
use crate::flags::spec_unpack_flags;
use crate::op::AddressingMode;
use crate::op::Instruction;
use crate::op::OP;
use crate::op::entry_for;

/// The processor as a mathematical value: registers, flags, the full
/// 64 KiB memory image, the running cycle counter and the halt state.
#[verifier::ext_equal]
pub struct CpuModel {
    pub a: u8,
    pub x: u8,
    pub y: u8,
    pub sp: u8,
    pub pc: u16,
    pub status: Flags,
    pub mem: Seq<u8>,
    pub cycles: u64,
    pub halted: bool,
}

/// The memory image spans the full 16-bit address space.
pub open spec fn wf(m: CpuModel) -> bool {
    m.mem.len() == 0x10000
}

/// Wraps a non-negative integer into one byte.
pub open spec fn w8(a: int) -> u8
    recommends
        a >= 0,
{
    (a % 256) as u8
}

/// Wraps a non-negative integer into one 16-bit word.
pub open spec fn w16(a: int) -> u16
    recommends
        a >= 0,
{
    (a % 0x10000) as u16
}

/// Wrapping 64-bit addition, for the running cycle counter.
pub open spec fn wadd64(a: u64, b: u64) -> u64 {
    ((a + b) % 0x1_0000_0000_0000_0000) as u64
}

/// The byte stored at an address.
pub open spec fn r8(m: CpuModel, addr: u16) -> u8
    recommends
        wf(m),
{
    m.mem[addr as int]
}

/// The little-endian word stored at an address: low byte first, the high
/// byte one address later with 16-bit wraparound.
pub open spec fn r16(m: CpuModel, addr: u16) -> u16
    recommends
        wf(m),
{
    (r8(m, addr) + 256 * r8(m, w16(addr + 1))) as u16
}

/// The little-endian word read from the zero page at pointer `p`: the high
/// byte comes from `(p + 1) mod 256`, never leaving the zero page.
pub open spec fn zp_ptr16(m: CpuModel, p: u8) -> u16
    recommends
        wf(m),
{
    (r8(m, p as u16) + 256 * r8(m, w8(p + 1) as u16)) as u16
}

/// Whether a mode names a memory location at all; the accumulator, implied
/// and relative modes do not go through the addressing resolver.
pub open spec fn mode_has_address(mode: AddressingMode) -> bool {
    match mode {
        AddressingMode::Accumulator => false,
        AddressingMode::NoneAddressing => false,
        AddressingMode::Relative => false,
        _ => true,
    }
}

/// The effective address a mode resolves to, with the program counter
/// sitting on the first operand byte, and whether the indexed computation
/// crossed a 256-byte page: true exactly when the low byte of the base
/// plus the index reaches 256. Modes without an address resolve to zero.
#[verifier::opaque]
pub open spec fn operand_address(m: CpuModel, mode: AddressingMode) -> (u16, bool)
    recommends
        wf(m),
{
    match mode {
        AddressingMode::Immediate => (m.pc, false),
        AddressingMode::ZeroPage => (r8(m, m.pc) as u16, false),
        AddressingMode::ZeroPageX => (w8(r8(m, m.pc) + m.x) as u16, false),
        AddressingMode::ZeroPageY => (w8(r8(m, m.pc) + m.y) as u16, false),
        AddressingMode::Absolute => (r16(m, m.pc), false),
        AddressingMode::AbsoluteX => {
            let base = r16(m, m.pc);
            (w16(base + m.x), base % 256 + m.x >= 256)
        },
        AddressingMode::AbsoluteY => {
            let base = r16(m, m.pc);
            (w16(base + m.y), base % 256 + m.y >= 256)
        },
        AddressingMode::Indirect => {
            // The 6502 increments only the low byte of the pointer when it
            // fetches the high byte of the target, so a pointer ending in
            // 0xFF wraps within its page.
            let p = r16(m, m.pc);
            let hi_addr = ((p / 256) * 256 + w8(p % 256 + 1)) as u16;
            ((r8(m, p) + 256 * r8(m, hi_addr)) as u16, false)
        },
        AddressingMode::IndirectX => {
            let p = w8(r8(m, m.pc) + m.x);
            (zp_ptr16(m, p), false)
        },
        AddressingMode::IndirectY => {
            let base = zp_ptr16(m, r8(m, m.pc));
            (w16(base + m.y), base % 256 + m.y >= 256)
        },
        _ => (0u16, false),
    }
}

/// The instructions whose absolute-indexed and indirect-indexed reads cost
/// one extra cycle when the effective address crosses a page.
pub open spec fn adds_read_penalty(i: Instruction) -> bool {
    match i {
        Instruction::ADC => true,
        Instruction::AND => true,
        Instruction::CMP => true,
        Instruction::EOR => true,
        Instruction::LDA => true,
        Instruction::LDX => true,
        Instruction::LDY => true,
        Instruction::ORA => true,
        Instruction::SBC => true,
        _ => false,
    }
}

/// Loads, stores and register transfers: instructions that move one byte.
pub open spec fn is_move_op(i: Instruction) -> bool {
    match i {
        Instruction::LDA => true,
        Instruction::LDX => true,
        Instruction::LDY => true,
        Instruction::STA => true,
        Instruction::STX => true,
        Instruction::STY => true,
        Instruction::TAX => true,
        Instruction::TAY => true,
        Instruction::TXA => true,
        Instruction::TYA => true,
        Instruction::TSX => true,
        Instruction::TXS => true,
        _ => false,
    }
}

/// Arithmetic, logical, bit-test and compare instructions.
pub open spec fn is_alu_op(i: Instruction) -> bool {
    match i {
        Instruction::ADC => true,
        Instruction::SBC => true,
        Instruction::AND => true,
        Instruction::ORA => true,
        Instruction::EOR => true,
        Instruction::BIT => true,
        Instruction::CMP => true,
        Instruction::CPX => true,
        Instruction::CPY => true,
        _ => false,
    }
}

/// Shifts, rotates, and increments or decrements of memory or registers.
pub open spec fn is_rmw_op(i: Instruction) -> bool {
    match i {
        Instruction::ASL => true,
        Instruction::LSR => true,
        Instruction::ROL => true,
        Instruction::ROR => true,
        Instruction::INC => true,
        Instruction::DEC => true,
        Instruction::INX => true,
        Instruction::INY => true,
        Instruction::DEX => true,
        Instruction::DEY => true,
        _ => false,
    }
}

/// Jumps, subroutine calls and returns, and conditional branches.
pub open spec fn is_control_op(i: Instruction) -> bool {
    match i {
        Instruction::JMP => true,
        Instruction::JSR => true,
        Instruction::RTS => true,
        Instruction::RTI => true,
        Instruction::BCC => true,
        Instruction::BCS => true,
        Instruction::BEQ => true,
        Instruction::BNE => true,
        Instruction::BMI => true,
        Instruction::BPL => true,
        Instruction::BVC => true,
        Instruction::BVS => true,
        _ => false,
    }
}

/// Stack pushes and pulls, direct flag writes, break and no-operation.
pub open spec fn is_stack_or_flag_op(i: Instruction) -> bool {
    match i {
        Instruction::PHA => true,
        Instruction::PHP => true,
        Instruction::PLA => true,
        Instruction::PLP => true,
        Instruction::CLC => true,
        Instruction::SEC => true,
        Instruction::CLI => true,
        Instruction::SEI => true,
        Instruction::CLD => true,
        Instruction::SED => true,
        Instruction::CLV => true,
        Instruction::BRK => true,
        Instruction::NOP => true,
        _ => false,
    }
}

/// The accumulator after add-with-carry.
pub open spec fn adc_value(a: u8, v: u8, c: bool) -> u8 {
    w8(a + v + (if c { 1int } else { 0 }))
}

/// The carry out of add-with-carry: unsigned overflow of the sum.
pub open spec fn adc_carry(a: u8, v: u8, c: bool) -> bool {
    a + v + (if c { 1int } else { 0 }) > 255
}

/// Signed overflow of add-with-carry: the operands agree in sign and the
/// result disagrees with them.
pub open spec fn adc_overflow(a: u8, v: u8, c: bool) -> bool {
    (a ^ adc_value(a, v, c)) & (v ^ adc_value(a, v, c)) & 0x80 != 0
}

/// The accumulator after subtract-with-borrow: `a - v - (1 - c)`, wrapped
/// modulo 256.
pub open spec fn sbc_value(a: u8, v: u8, c: bool) -> u8 {
    w8(a + 255 + (if c { 1int } else { 0 }) - v)
}

/// The carry after subtract-with-borrow: set exactly when no borrow was
/// needed.
pub open spec fn sbc_carry(a: u8, v: u8, c: bool) -> bool {
    a + (if c { 1int } else { 0 }) > v
}

/// Signed overflow of subtract-with-borrow.
pub open spec fn sbc_overflow(a: u8, v: u8, c: bool) -> bool {
    (a ^ sbc_value(a, v, c)) & (a ^ v) & 0x80 != 0
}

/// The whole effect of ADC on the processor: accumulator and the four
/// arithmetic flags; everything else keeps its value.
pub open spec fn adc_model(m: CpuModel, v: u8) -> CpuModel {
    let c = m.status.carry;
    let r = adc_value(m.a, v, c);
    CpuModel {
        a: r,
        status: Flags {
            carry: adc_carry(m.a, v, c),
            zero: r == 0,
            overflow: adc_overflow(m.a, v, c),
            negative: r & 0x80 != 0,
            ..m.status
        },
        ..m
    }
}

/// The whole effect of SBC on the processor.
pub open spec fn sbc_model(m: CpuModel, v: u8) -> CpuModel {
    let c = m.status.carry;
    let r = sbc_value(m.a, v, c);
    CpuModel {
        a: r,
        status: Flags {
            carry: sbc_carry(m.a, v, c),
            zero: r == 0,
            overflow: sbc_overflow(m.a, v, c),
            negative: r & 0x80 != 0,
            ..m.status
        },
        ..m
    }
}

/// The flags after a compare: the register minus the operand is computed
/// and discarded, setting Carry, Zero and Negative as SBC with carry set
/// would, and leaving Overflow alone.
pub open spec fn compare_flags(f: Flags, reg: u8, v: u8) -> Flags {
    let d = w8(reg + 256 - v);
    Flags { carry: reg >= v, zero: reg == v, negative: d & 0x80 != 0, ..f }
}

/// The shifted or rotated value: ASL and ROL move bits up, LSR and ROR
/// move bits down, the rotates feeding the old carry into the freed bit.
pub open spec fn shift_value(i: Instruction, v: u8, c: bool) -> u8 {
    match i {
        Instruction::ASL => w8(2 * v),
        Instruction::LSR => (v / 2) as u8,
        Instruction::ROL => w8(2 * v + (if c { 1int } else { 0 })),
        Instruction::ROR => (v / 2 + (if c { 128int } else { 0 })) as u8,
        _ => v,
    }
}

/// The bit a shift pushes out into the carry: bit 7 going up, bit 0 going
/// down.
pub open spec fn shift_carry(i: Instruction, v: u8) -> bool {
    match i {
        Instruction::ASL => v & 0x80 != 0,
        Instruction::ROL => v & 0x80 != 0,
        _ => v & 1 != 0,
    }
}

/// The flags after a shift or rotate of `v`.
pub open spec fn shift_flags(f: Flags, i: Instruction, v: u8, c: bool) -> Flags {
    let r = shift_value(i, v, c);
    Flags { carry: shift_carry(i, v), zero: r == 0, negative: r & 0x80 != 0, ..f }
}

/// A shift or rotate applied in place: to the accumulator when `acc`
/// holds, otherwise to memory at `addr`.
pub open spec fn shift_model(m: CpuModel, i: Instruction, acc: bool, addr: u16) -> CpuModel
    recommends
        wf(m),
{
    if acc {
        CpuModel {
            a: shift_value(i, m.a, m.status.carry),
            status: shift_flags(m.status, i, m.a, m.status.carry),
            ..m
        }
    } else {
        let v = r8(m, addr);
        CpuModel {
            mem: m.mem.update(addr as int, shift_value(i, v, m.status.carry)),
            status: shift_flags(m.status, i, v, m.status.carry),
            ..m
        }
    }
}

/// Memory incremented or decremented in place, modulo 256, with Zero and
/// Negative tracking the new value and Carry untouched.
pub open spec fn incdec_model(m: CpuModel, addr: u16, up: bool) -> CpuModel
    recommends
        wf(m),
{
    let r = w8(r8(m, addr) + (if up { 1int } else { 255 }));
    CpuModel {
        mem: m.mem.update(addr as int, r),
        status: flags_with_zn(m.status, r),
        ..m
    }
}

/// One byte pushed: stored in the stack page at the stack pointer, which
/// then steps down with 8-bit wraparound.
pub open spec fn push8(m: CpuModel, v: u8) -> CpuModel
    recommends
        wf(m),
{
    CpuModel { mem: m.mem.update(0x100 + m.sp as int, v), sp: w8(m.sp + 255), ..m }
}

/// A word pushed high byte first, so that it reads back little-endian.
pub open spec fn push16(m: CpuModel, v: u16) -> CpuModel
    recommends
        wf(m),
{
    push8(push8(m, (v / 256) as u8), (v % 256) as u8)
}

/// One byte pulled: the stack pointer steps up with 8-bit wraparound and
/// the byte at the new position comes back.
pub open spec fn pop8(m: CpuModel) -> (CpuModel, u8)
    recommends
        wf(m),
{
    let sp1 = w8(m.sp + 1);
    (CpuModel { sp: sp1, ..m }, m.mem[0x100 + sp1 as int])
}

/// A branch displacement applied to the address of the next instruction:
/// the operand byte is a signed 8-bit offset.
pub open spec fn branch_target(base: u16, off: u8) -> u16 {
    if off < 0x80 {
        w16(base + off)
    } else {
        w16(base + off + 0xFF00)
    }
}

/// A conditional branch with the program counter on the offset byte: not
/// taken, nothing changes and the usual advance follows; taken, the
/// program counter moves to the target and the branch costs one extra
/// cycle, or two when the target sits on another page than the
/// instruction that follows the branch.
pub open spec fn branch_effect(m: CpuModel, cond: bool) -> (CpuModel, u8, bool)
    recommends
        wf(m),
{
    if cond {
        let next = w16(m.pc + 1);
        let t = branch_target(next, r8(m, m.pc));
        let extra: u8 = if t / 256 != next / 256 { 2u8 } else { 1u8 };
        (CpuModel { pc: t, ..m }, extra, true)
    } else {
        (m, 0u8, false)
    }
}

/// The semantic effect of one decoded instruction, with the program
/// counter already past the opcode byte. Yields the machine afterwards,
/// the extra cycles beyond the table's base cost, and whether the
/// instruction redirected control flow (in which case the uniform advance
/// by the instruction length must not follow).
#[verifier::opaque]
pub open spec fn effect(m: CpuModel, op: OP) -> (CpuModel, u8, bool)
    recommends
        wf(m),
{
    let ea = operand_address(m, op.mode);
    let addr = ea.0;
    let pen: u8 = if ea.1 && adds_read_penalty(op.instruction) { 1u8 } else { 0u8 };
    match op.instruction {
        Instruction::LDA => {
            let v = r8(m, addr);
            (CpuModel { a: v, status: flags_with_zn(m.status, v), ..m }, pen, false)
        },
        Instruction::LDX => {
            let v = r8(m, addr);
            (CpuModel { x: v, status: flags_with_zn(m.status, v), ..m }, pen, false)
        },
        Instruction::LDY => {
            let v = r8(m, addr);
            (CpuModel { y: v, status: flags_with_zn(m.status, v), ..m }, pen, false)
        },
        Instruction::STA => (CpuModel { mem: m.mem.update(addr as int, m.a), ..m }, 0u8, false),
        Instruction::STX => (CpuModel { mem: m.mem.update(addr as int, m.x), ..m }, 0u8, false),
        Instruction::STY => (CpuModel { mem: m.mem.update(addr as int, m.y), ..m }, 0u8, false),
        Instruction::TAX => (CpuModel { x: m.a, status: flags_with_zn(m.status, m.a), ..m }, 0u8, false),
        Instruction::TAY => (CpuModel { y: m.a, status: flags_with_zn(m.status, m.a), ..m }, 0u8, false),
        Instruction::TXA => (CpuModel { a: m.x, status: flags_with_zn(m.status, m.x), ..m }, 0u8, false),
        Instruction::TYA => (CpuModel { a: m.y, status: flags_with_zn(m.status, m.y), ..m }, 0u8, false),
        Instruction::TSX => (CpuModel { x: m.sp, status: flags_with_zn(m.status, m.sp), ..m }, 0u8, false),
        Instruction::TXS => (CpuModel { sp: m.x, ..m }, 0u8, false),
        Instruction::ADC => (adc_model(m, r8(m, addr)), pen, false),
        Instruction::SBC => (sbc_model(m, r8(m, addr)), pen, false),
        Instruction::AND => {
            let v = m.a & r8(m, addr);
            (CpuModel { a: v, status: flags_with_zn(m.status, v), ..m }, pen, false)
        },
        Instruction::ORA => {
            let v = m.a | r8(m, addr);
            (CpuModel { a: v, status: flags_with_zn(m.status, v), ..m }, pen, false)
        },
        Instruction::EOR => {
            let v = m.a ^ r8(m, addr);
            (CpuModel { a: v, status: flags_with_zn(m.status, v), ..m }, pen, false)
        },
        Instruction::BIT => {
            let v = r8(m, addr);
            (
                CpuModel {
                    status: Flags {
                        zero: m.a & v == 0,
                        overflow: v & 0x40 != 0,
                        negative: v & 0x80 != 0,
                        ..m.status
                    },
                    ..m
                },
                0u8,
                false,
            )
        },
        Instruction::CMP => (
            CpuModel { status: compare_flags(m.status, m.a, r8(m, addr)), ..m },
            pen,
            false,
        ),
        Instruction::CPX => (
            CpuModel { status: compare_flags(m.status, m.x, r8(m, addr)), ..m },
            0u8,
            false,
        ),
        Instruction::CPY => (
            CpuModel { status: compare_flags(m.status, m.y, r8(m, addr)), ..m },
            0u8,
            false,
        ),
        Instruction::ASL => (shift_model(m, op.instruction, op.mode is Accumulator, addr), 0u8, false),
        Instruction::LSR => (shift_model(m, op.instruction, op.mode is Accumulator, addr), 0u8, false),
        Instruction::ROL => (shift_model(m, op.instruction, op.mode is Accumulator, addr), 0u8, false),
        Instruction::ROR => (shift_model(m, op.instruction, op.mode is Accumulator, addr), 0u8, false),
        Instruction::INC => (incdec_model(m, addr, true), 0u8, false),
        Instruction::DEC => (incdec_model(m, addr, false), 0u8, false),
        Instruction::INX => {
            let r = w8(m.x + 1);
            (CpuModel { x: r, status: flags_with_zn(m.status, r), ..m }, 0u8, false)
        },
        Instruction::INY => {
            let r = w8(m.y + 1);
            (CpuModel { y: r, status: flags_with_zn(m.status, r), ..m }, 0u8, false)
        },
        Instruction::DEX => {
            let r = w8(m.x + 255);
            (CpuModel { x: r, status: flags_with_zn(m.status, r), ..m }, 0u8, false)
        },
        Instruction::DEY => {
            let r = w8(m.y + 255);
            (CpuModel { y: r, status: flags_with_zn(m.status, r), ..m }, 0u8, false)
        },
        Instruction::JMP => (CpuModel { pc: addr, ..m }, 0u8, true),
        Instruction::JSR => (
            CpuModel { pc: addr, ..push16(m, w16(m.pc + 1)) },
            0u8,
            true,
        ),
        Instruction::RTS => {
            let p1 = pop8(m);
            let p2 = pop8(p1.0);
            (CpuModel { pc: w16(p1.1 + 256 * p2.1 + 1), ..p2.0 }, 0u8, true)
        },
        Instruction::RTI => {
            let ps = pop8(m);
            let pl = pop8(ps.0);
            let ph = pop8(pl.0);
            (
                CpuModel {
                    status: spec_unpack_flags(ps.1),
                    pc: (pl.1 + 256 * ph.1) as u16,
                    ..ph.0
                },
                0u8,
                true,
            )
        },
        Instruction::PHA => (push8(m, m.a), 0u8, false),
        Instruction::PHP => (
            push8(m, spec_pack_flags(Flags { brk: true, unused: true, ..m.status })),
            0u8,
            false,
        ),
        Instruction::PLA => {
            let p = pop8(m);
            (CpuModel { a: p.1, status: flags_with_zn(m.status, p.1), ..p.0 }, 0u8, false)
        },
        Instruction::PLP => {
            let p = pop8(m);
            (CpuModel { status: spec_unpack_flags(p.1), ..p.0 }, 0u8, false)
        },
        Instruction::BCC => branch_effect(m, !m.status.carry),
        Instruction::BCS => branch_effect(m, m.status.carry),
        Instruction::BEQ => branch_effect(m, m.status.zero),
        Instruction::BNE => branch_effect(m, !m.status.zero),
        Instruction::BMI => branch_effect(m, m.status.negative),
        Instruction::BPL => branch_effect(m, !m.status.negative),
        Instruction::BVS => branch_effect(m, m.status.overflow),
        Instruction::BVC => branch_effect(m, !m.status.overflow),
        Instruction::CLC => (CpuModel { status: Flags { carry: false, ..m.status }, ..m }, 0u8, false),
        Instruction::SEC => (CpuModel { status: Flags { carry: true, ..m.status }, ..m }, 0u8, false),
        Instruction::CLI => (
            CpuModel { status: Flags { interrupt_disable: false, ..m.status }, ..m },
            0u8,
            false,
        ),
        Instruction::SEI => (
            CpuModel { status: Flags { interrupt_disable: true, ..m.status }, ..m },
            0u8,
            false,
        ),
        Instruction::CLD => (CpuModel { status: Flags { decimal: false, ..m.status }, ..m }, 0u8, false),
        Instruction::SED => (CpuModel { status: Flags { decimal: true, ..m.status }, ..m }, 0u8, false),
        Instruction::CLV => (
            CpuModel { status: Flags { overflow: false, ..m.status }, ..m },
            0u8,
            false,
        ),
        // With no interrupt handler installed, a break instruction parks
        // the machine in the halted state.
        Instruction::BRK => (CpuModel { halted: true, ..m }, 0u8, false),
        Instruction::NOP => (m, 0u8, false),
    }
}

/// One whole instruction from a decoded table entry: skip the opcode byte,
/// apply the semantic effect, advance the program counter by the
/// instruction length unless control flow was redirected, and account the
/// base cycle cost plus any penalty. Yields the machine afterwards and the
/// cycles the instruction consumed.
pub open spec fn instr_model(m: CpuModel, op: OP) -> (CpuModel, u8)
    recommends
        wf(m),
{
    let m1 = CpuModel { pc: w16(m.pc + 1), ..m };
    let t = effect(m1, op);
    let m3 = if t.2 {
        t.0
    } else {
        CpuModel { pc: w16(m.pc + op.len), ..t.0 }
    };
    let total = (op.cycles + t.1) as u8;
    (CpuModel { cycles: wadd64(m.cycles, total as u64), ..m3 }, total)
}

/// One fetch-decode-execute step: the opcode byte under the program
/// counter is looked up in the table; an undefined opcode yields `None`
/// and the machine must not move.
pub open spec fn step_model(m: CpuModel) -> Option<(CpuModel, u8)>
    recommends
        wf(m),
{
    match entry_for(r8(m, m.pc)) {
        Option::None => Option::None,
        Option::Some(op) => Option::Some(instr_model(m, op)),
    }
}

/// A bounded run of the machine: one step after another until the
/// processor is halted, an undefined opcode is reached, or the
/// caller-supplied instruction budget is exhausted. Yields the machine
/// afterwards, the number of instructions executed, and whether the run
/// stopped on an undefined opcode — in which case the machine still sits
/// at the faulting instruction, which is never skipped.
pub open spec fn run_model(m: CpuModel, max_steps: u64) -> (CpuModel, nat, bool)
    recommends
        wf(m),
    decreases max_steps,
{
    if m.halted || max_steps == 0 {
        (m, 0nat, false)
    } else {
        match step_model(m) {
            Option::None => (m, 0nat, true),
            Option::Some(t) => {
                let rest = run_model(t.0, (max_steps - 1) as u64);
                (rest.0, (rest.1 + 1) as nat, rest.2)
            },
        }
    }
}

/// Every opcode table entry is between one and three bytes long and costs
/// between two and seven base cycles.
pub proof fn lemma_entry_bounds(code: u8)
    ensures
        entry_for(code) is Some ==> {
            let op = entry_for(code).unwrap();
            1 <= op.len <= 3 && 2 <= op.cycles <= 7 && op.code == code
        },
{
}

/// No instruction grows or shrinks the memory image.
pub proof fn lemma_effect_wf(m: CpuModel, op: OP)
    requires
        wf(m),
    ensures
        wf(effect(m, op).0),
{
    reveal(crate::model::effect);
}

/// A step never grows or shrinks the memory image.
pub proof fn lemma_step_wf(m: CpuModel)
    requires
        wf(m),
        step_model(m) is Some,
    ensures
        wf(step_model(m).unwrap().0),
{
    let op = entry_for(r8(m, m.pc)).unwrap();
    let m1 = CpuModel { pc: w16(m.pc + 1), ..m };
    lemma_effect_wf(m1, op);
}

} // verus!
