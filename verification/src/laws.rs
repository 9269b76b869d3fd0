//! Arithmetic and control-flow laws of the instruction set, proved from
//! the model that the engine is verified against.
use vstd::prelude::*;

verus! {

use crate::model::CpuModel;
use crate::model::adc_model;
use crate::model::adc_carry;
use crate::model::adc_value;
use crate::model::r16;
use crate::model::r8;
use crate::model::sbc_model;
use crate::model::sbc_value;
use crate::model::effect;
use crate::model::step_model;
use crate::model::w16;
use crate::model::w8;
use crate::model::wf;
use crate::op::AddressingMode;
use crate::op::Instruction;
use crate::op::OP;
use crate::op::entry_for;

/// Adding an operand with Carry clear and then subtracting the same
/// operand, with the carry the addition produced still in place, restores
/// the accumulator — whenever the addition carried out. (When it does
/// not, the subtraction borrows and lands one below the original value,
/// so the round trip holds exactly on the carrying inputs.)
pub proof fn lemma_adc_sbc_round_trip(a: u8, v: u8)
    requires
        a + v >= 256,
    ensures
        sbc_value(adc_value(a, v, false), v, adc_carry(a, v, false)) == a,
{
}

/// The same round trip at the level of whole instructions: ADC on a
/// machine with Carry clear, then SBC of the same operand with the carry
/// the ADC left behind, puts the original value back in the accumulator —
/// whenever the addition carried out.
pub proof fn lemma_adc_sbc_model_round_trip(m: CpuModel, v: u8)
    requires
        !m.status.carry,
        m.a + v >= 256,
    ensures
        sbc_model(adc_model(m, v), v).a == m.a,
{
    lemma_adc_sbc_round_trip(m.a, v);
}

/// What a decoded JSR does with the program counter already past the
/// opcode: the address of its second operand byte is pushed high byte
/// first, the stack pointer drops by two, and the program counter moves
/// to the absolute target.
proof fn lemma_jsr_effect(m: CpuModel, op: OP)
    requires
        wf(m),
        op == (OP {
            code: 0x20u8,
            instruction: Instruction::JSR,
            len: 3u8,
            cycles: 6u8,
            mode: AddressingMode::Absolute,
        }),
    ensures
        effect(m, op) == ((CpuModel {
            pc: r16(m, m.pc),
            sp: w8(m.sp + 254),
            mem: m.mem
                .update(0x100 + m.sp as int, (w16(m.pc + 1) / 256) as u8)
                .update(0x100 + w8(m.sp + 255) as int, (w16(m.pc + 1) % 256) as u8),
            ..m
        }, 0u8, true)),
{
    reveal(crate::model::effect);
    reveal(crate::model::operand_address);
    assert(w8(w8(m.sp + 255) + 255) == w8(m.sp + 254));
}

/// What a decoded RTS does with the program counter already past the
/// opcode: two bytes come off the stack, the stack pointer rises by two,
/// and the program counter lands one past the address they form.
proof fn lemma_rts_effect(m: CpuModel, op: OP)
    requires
        wf(m),
        op == (OP {
            code: 0x60u8,
            instruction: Instruction::RTS,
            len: 1u8,
            cycles: 6u8,
            mode: AddressingMode::NoneAddressing,
        }),
    ensures
        effect(m, op) == ((CpuModel {
            pc: w16(
                m.mem[0x100 + w8(m.sp + 1) as int] + 256 * m.mem[0x100 + w8(m.sp + 2) as int]
                    + 1,
            ),
            sp: w8(m.sp + 2),
            ..m
        }, 0u8, true)),
{
    reveal(crate::model::effect);
    reveal(crate::model::operand_address);
    assert(w8(w8(m.sp + 1) + 1) == w8(m.sp + 2));
}

/// A subroutine call returns to the instruction after it: stepping a
/// machine whose program counter sits on a JSR opcode, and then stepping
/// again from a RTS opcode at the call target, leaves the program counter
/// three bytes past the call (its opcode and two operand bytes) and the
/// stack pointer exactly where it was before the call.
#[verifier::rlimit(100)]
pub proof fn lemma_jsr_rts(m: CpuModel)
    requires
        wf(m),
        r8(m, m.pc) == 0x20,
        r8(step_model(m).unwrap().0, step_model(m).unwrap().0.pc) == 0x60,
    ensures
        step_model(m) is Some,
        step_model(step_model(m).unwrap().0) is Some,
        step_model(step_model(m).unwrap().0).unwrap().0.pc == w16(m.pc + 3),
        step_model(step_model(m).unwrap().0).unwrap().0.sp == m.sp,
{
    let jsr = OP {
        code: 0x20u8,
        instruction: Instruction::JSR,
        len: 3u8,
        cycles: 6u8,
        mode: AddressingMode::Absolute,
    };
    assert(entry_for(0x20) == Some(jsr));
    let m1 = CpuModel { pc: w16(m.pc + 1), ..m };
    lemma_jsr_effect(m1, jsr);
    assert(w16(w16(m.pc + 1) + 1) == w16(m.pc + 2));
    let ret = w16(m.pc + 2);
    let s1 = step_model(m).unwrap().0;
    assert(s1.sp == w8(m.sp + 254));
    assert(s1.mem == m.mem
        .update(0x100 + m.sp as int, (ret / 256) as u8)
        .update(0x100 + w8(m.sp + 255) as int, (ret % 256) as u8));
    let rts = OP {
        code: 0x60u8,
        instruction: Instruction::RTS,
        len: 1u8,
        cycles: 6u8,
        mode: AddressingMode::NoneAddressing,
    };
    assert(entry_for(0x60) == Some(rts));
    let m2 = CpuModel { pc: w16(s1.pc + 1), ..s1 };
    lemma_rts_effect(m2, rts);
    assert(w8(s1.sp + 1) == w8(m.sp + 255));
    assert(w8(s1.sp + 2) == m.sp);
    assert(w8(m.sp + 255) != m.sp);
    assert(s1.mem[0x100 + w8(m.sp + 255) as int] == (ret % 256) as u8);
    assert(s1.mem[0x100 + m.sp as int] == (ret / 256) as u8);
    assert(ret % 256 + 256 * (ret / 256) == ret);
    let s2 = step_model(s1).unwrap().0;
    assert(s2.sp == m.sp);
    assert(s2.pc == w16(ret + 1));
    assert(w16(ret + 1) == w16(m.pc + 3));
}

} // verus!
