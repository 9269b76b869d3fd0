//! The executable processor: registers, flags, the 64 KiB memory, the
//! addressing resolver and the fetch-decode-execute engine, each operation
//! proved against the model in `model`.
use vstd::prelude::*;

verus! {

use crate::flags::Flags;
use crate::flags::flags_with_zn;
use crate::flags::pack_flags;
use crate::flags::unpack_flags;
use crate::model::CpuModel;
use crate::model::adc_model;
use crate::model::branch_effect;
use crate::model::compare_flags;
use crate::model::effect;
use crate::model::incdec_model;
use crate::model::mode_has_address;
use crate::model::operand_address;
use crate::model::pop8;
use crate::model::push8;
use crate::model::r16;
use crate::model::r8;
use crate::model::run_model;
use crate::model::sbc_model;
use crate::model::shift_model;
use crate::model::step_model;
use crate::model::w16;
use crate::op::AddressingMode;
use crate::op::Instruction;
use crate::op::OP;
use crate::op::entry_for;
use crate::op::lookup;

/// What can go wrong while driving the processor: an opcode byte with no
/// table entry, or a program image that does not fit in the address space.
#[derive(Debug, Clone, Copy, PartialEq, Eq, Structural)]
pub enum CpuError {
    IllegalOpcode(u8),
    LoadOutOfRange,
}

/// The processor: accumulator, index registers, stack pointer, program
/// counter, status flags, the flat memory image, the running cycle
/// counter, and whether a break instruction has halted execution.
#[derive(Debug)]
pub struct CPU {
    pub a: u8,
    pub x: u8,
    pub y: u8,
    pub sp: u8,
    pub pc: u16,
    pub status: Flags,
    pub cycles: u64,
    pub halted: bool,
    pub memory: Vec<u8>,
}

impl View for CPU {
    type V = CpuModel;

    open spec fn view(&self) -> CpuModel {
        CpuModel {
            a: self.a,
            x: self.x,
            y: self.y,
            sp: self.sp,
            pc: self.pc,
            status: self.status,
            mem: self.memory@,
            cycles: self.cycles,
            halted: self.halted,
        }
    }
}

impl CPU {
    /// The memory image spans the full 16-bit address space.
    pub open spec fn wf(&self) -> bool {
        crate::model::wf(self@)
    }

    /// A fresh processor: registers, flags, cycle counter and every memory
    /// byte all zero.
    pub fn new() -> (r: Self)
        ensures
            r.wf(),
            r@.a == 0 && r@.x == 0 && r@.y == 0 && r@.sp == 0 && r@.pc == 0,
            r@.cycles == 0 && !r@.halted,
            r@.status == (Flags {
                carry: false,
                zero: false,
                interrupt_disable: false,
                decimal: false,
                brk: false,
                unused: false,
                overflow: false,
                negative: false,
            }),
            forall|i: int| 0 <= i < 0x10000 ==> r@.mem[i] == 0u8,
    {
        let mut memory: Vec<u8> = Vec::new();
        let mut i: usize = 0;
        while i < 0x10000
            invariant
                i <= 0x10000,
                memory@.len() == i,
                forall|j: int| 0 <= j < i ==> memory@[j] == 0u8,
            decreases 0x10000 - i,
        {
            memory.push(0);
            i = i + 1;
        }
        CPU {
            a: 0,
            x: 0,
            y: 0,
            sp: 0,
            pc: 0,
            status: Flags {
                carry: false,
                zero: false,
                interrupt_disable: false,
                decimal: false,
                brk: false,
                unused: false,
                overflow: false,
                negative: false,
            },
            cycles: 0,
            halted: false,
            memory,
        }
    }

    /// Reads the byte at an address.
    pub fn mem_read(&self, addr: u16) -> (r: u8)
        requires
            self.wf(),
        ensures
            r == r8(self@, addr),
    {
        self.memory[addr as usize]
    }

    /// Writes one byte; nothing but that memory cell changes.
    pub fn mem_write(&mut self, addr: u16, v: u8)
        requires
            old(self).wf(),
        ensures
            final(self).wf(),
            final(self)@ == (CpuModel { mem: old(self)@.mem.update(addr as int, v), ..old(self)@ }),
    {
        self.memory[addr as usize] = v;
    }

    /// Reads the little-endian word at an address: low byte there, high
    /// byte one address later with 16-bit wraparound.
    pub fn mem_read_u16(&self, addr: u16) -> (r: u16)
        requires
            self.wf(),
        ensures
            r == r16(self@, addr),
    {
        let lo: u8 = self.mem_read(addr);
        let hi: u8 = self.mem_read(((addr as u32 + 1) % 0x10000) as u16);
        lo as u16 + 256 * hi as u16
    }

    /// Writes a word little-endian: low byte at the address, high byte one
    /// address later with 16-bit wraparound.
    pub fn mem_write_u16(&mut self, addr: u16, v: u16)
        requires
            old(self).wf(),
        ensures
            final(self).wf(),
            final(self)@ == (CpuModel {
                mem: old(self)@.mem
                    .update(addr as int, (v % 256) as u8)
                    .update(w16(addr + 1) as int, (v / 256) as u8),
                ..old(self)@
            }),
    {
        self.mem_write(addr, (v % 256) as u8);
        self.mem_write(((addr as u32 + 1) % 0x10000) as u16, (v / 256) as u8);
    }

    /// Puts the processor in its architectural start state: registers
    /// cleared, stack pointer at its reset value, interrupts disabled, the
    /// fixed status bit high, the program counter at the entry point, the
    /// cycle counter cleared. Memory keeps its contents.
    pub fn reset(&mut self, entry: u16)
        requires
            old(self).wf(),
        ensures
            final(self).wf(),
            final(self)@ == (CpuModel {
                a: 0u8,
                x: 0u8,
                y: 0u8,
                sp: 0xFDu8,
                pc: entry,
                status: (Flags {
                    carry: false,
                    zero: false,
                    interrupt_disable: true,
                    decimal: false,
                    brk: false,
                    unused: true,
                    overflow: false,
                    negative: false,
                }),
                mem: old(self)@.mem,
                cycles: 0u64,
                halted: false,
            }),
    {
        self.a = 0;
        self.x = 0;
        self.y = 0;
        self.sp = 0xFD;
        self.pc = entry;
        self.status = Flags {
            carry: false,
            zero: false,
            interrupt_disable: true,
            decimal: false,
            brk: false,
            unused: true,
            overflow: false,
            negative: false,
        };
        self.cycles = 0;
        self.halted = false;
    }

    /// Copies a byte sequence into memory starting at `addr`. A sequence
    /// that would run past the end of the address space is rejected whole:
    /// the error comes back and nothing is written.
    pub fn load(&mut self, addr: u16, data: &[u8]) -> (r: Result<(), CpuError>)
        requires
            old(self).wf(),
        ensures
            final(self).wf(),
            addr + data@.len() > 0x10000 ==> r == Err::<(), CpuError>(CpuError::LoadOutOfRange)
                && final(self)@ == old(self)@,
            addr + data@.len() <= 0x10000 ==> r == Ok::<(), CpuError>(())
                && final(self)@ == (CpuModel { mem: final(self)@.mem, ..old(self)@ })
                && final(self)@.mem.len() == 0x10000
                && (forall|i: int|
                    0 <= i < data@.len() ==> final(self)@.mem[addr + i] == data@[i])
                && (forall|j: int|
                    0 <= j < 0x10000 && !(addr <= j < addr + data@.len())
                        ==> final(self)@.mem[j] == old(self)@.mem[j]),
    {
        if data.len() > 0x10000 - addr as usize {
            return Err(CpuError::LoadOutOfRange);
        }
        let ghost m0 = self@;
        let mut i: usize = 0;
        while i < data.len()
            invariant
                self.wf(),
                i <= data@.len(),
                addr + data@.len() <= 0x10000,
                self@ == (CpuModel { mem: self@.mem, ..m0 }),
                self@.mem.len() == 0x10000,
                forall|k: int| 0 <= k < i ==> self@.mem[addr + k] == data@[k],
                forall|j: int|
                    0 <= j < 0x10000 && !(addr <= j < addr + i) ==> self@.mem[j] == m0.mem[j],
            decreases data@.len() - i,
        {
            self.memory[addr as usize + i] = data[i];
            i = i + 1;
        }
        Ok(())
    }

    /// Resolves the effective address for a mode that names one, with the
    /// program counter on the first operand byte, and reports whether an
    /// indexed computation crossed a page. Asking for an address on behalf
    /// of an implied, accumulator or relative instruction is a caller
    /// error, ruled out by contract.
    ///
    /// Zero-page indexing can never leave the zero page, and the
    /// absolute-indexed page-cross flag is set exactly when the low byte
    /// of the base plus the index reaches 256.
    pub fn get_address(&self, mode: &AddressingMode) -> (r: (u16, bool))
        requires
            self.wf(),
            mode_has_address(*mode),
        ensures
            r == operand_address(self@, *mode),
            (*mode is ZeroPageX || *mode is ZeroPageY) ==> r.0 < 0x100,
            *mode is AbsoluteX ==> (r.1 <==> r16(self@, self@.pc) % 256 + self@.x >= 256),
            *mode is AbsoluteY ==> (r.1 <==> r16(self@, self@.pc) % 256 + self@.y >= 256),
    {
        proof {
            reveal(crate::model::operand_address);
        }
        self.resolve(mode)
    }

    /// Total addressing resolver: as `get_address`, yielding address zero
    /// and no page cross for the modes that name no memory location.
    fn resolve(&self, mode: &AddressingMode) -> (r: (u16, bool))
        requires
            self.wf(),
        ensures
            r == operand_address(self@, *mode),
    {
        proof {
            reveal(crate::model::operand_address);
        }
        match mode {
            AddressingMode::Immediate => (self.pc, false),
            AddressingMode::ZeroPage => (self.mem_read(self.pc) as u16, false),
            AddressingMode::ZeroPageX => {
                let b: u8 = self.mem_read(self.pc);
                (((b as u32 + self.x as u32) % 256) as u16, false)
            },
            AddressingMode::ZeroPageY => {
                let b: u8 = self.mem_read(self.pc);
                (((b as u32 + self.y as u32) % 256) as u16, false)
            },
            AddressingMode::Absolute => (self.mem_read_u16(self.pc), false),
            AddressingMode::AbsoluteX => {
                let base: u16 = self.mem_read_u16(self.pc);
                let addr: u16 = ((base as u32 + self.x as u32) % 0x10000) as u16;
                (addr, base % 256 + self.x as u16 >= 256)
            },
            AddressingMode::AbsoluteY => {
                let base: u16 = self.mem_read_u16(self.pc);
                let addr: u16 = ((base as u32 + self.y as u32) % 0x10000) as u16;
                (addr, base % 256 + self.y as u16 >= 256)
            },
            AddressingMode::Indirect => {
                let p: u16 = self.mem_read_u16(self.pc);
                let hi_addr: u16 = (p / 256) * 256 + ((p % 256 + 1) % 256);
                let lo: u8 = self.mem_read(p);
                let hi: u8 = self.mem_read(hi_addr);
                (lo as u16 + 256 * hi as u16, false)
            },
            AddressingMode::IndirectX => {
                let b: u8 = self.mem_read(self.pc);
                let p: u8 = ((b as u32 + self.x as u32) % 256) as u8;
                let lo: u8 = self.mem_read(p as u16);
                let hi: u8 = self.mem_read(((p as u32 + 1) % 256) as u16);
                (lo as u16 + 256 * hi as u16, false)
            },
            AddressingMode::IndirectY => {
                let b: u8 = self.mem_read(self.pc);
                let lo: u8 = self.mem_read(b as u16);
                let hi: u8 = self.mem_read(((b as u32 + 1) % 256) as u16);
                let base: u16 = lo as u16 + 256 * hi as u16;
                let addr: u16 = ((base as u32 + self.y as u32) % 0x10000) as u16;
                (addr, base % 256 + self.y as u16 >= 256)
            },
            _ => (0, false),
        }
    }

    /// Sets Zero when the value is zero and Negative when its bit 7 is
    /// set; no other flag and no register moves.
    pub fn update_zero_and_negative(&mut self, v: u8)
        ensures
            final(self)@ == (CpuModel {
                status: flags_with_zn(old(self)@.status, v),
                ..old(self)@
            }),
            final(self).status.zero <==> v == 0,
            final(self).status.negative <==> v & 0x80 != 0,
            final(self).status.carry == old(self).status.carry,
            final(self).status.overflow == old(self).status.overflow,
            final(self).status.interrupt_disable == old(self).status.interrupt_disable,
            final(self).status.decimal == old(self).status.decimal,
            final(self).status.brk == old(self).status.brk,
            final(self).status.unused == old(self).status.unused,
    {
        self.status.zero = v == 0;
        self.status.negative = v & 0x80 != 0;
    }

    /// Loads the accumulator and refreshes Zero and Negative.
    fn set_a_zn(&mut self, v: u8)
        ensures
            final(self)@ == (CpuModel {
                a: v,
                status: flags_with_zn(old(self)@.status, v),
                ..old(self)@
            }),
    {
        self.a = v;
        self.update_zero_and_negative(v);
    }

    /// Loads the X register and refreshes Zero and Negative.
    fn set_x_zn(&mut self, v: u8)
        ensures
            final(self)@ == (CpuModel {
                x: v,
                status: flags_with_zn(old(self)@.status, v),
                ..old(self)@
            }),
    {
        self.x = v;
        self.update_zero_and_negative(v);
    }

    /// Loads the Y register and refreshes Zero and Negative.
    fn set_y_zn(&mut self, v: u8)
        ensures
            final(self)@ == (CpuModel {
                y: v,
                status: flags_with_zn(old(self)@.status, v),
                ..old(self)@
            }),
    {
        self.y = v;
        self.update_zero_and_negative(v);
    }

    /// Add with carry into the accumulator, setting Carry, Zero, Overflow
    /// and Negative.
    fn adc_exec(&mut self, v: u8)
        ensures
            final(self)@ == adc_model(old(self)@, v),
    {
        let c: u32 = if self.status.carry { 1 } else { 0 };
        let sum: u32 = self.a as u32 + v as u32 + c;
        let r: u8 = (sum % 256) as u8;
        let a0: u8 = self.a;
        self.a = r;
        self.status.carry = sum > 255;
        self.status.zero = r == 0;
        self.status.overflow = (a0 ^ r) & (v ^ r) & 0x80 != 0;
        self.status.negative = r & 0x80 != 0;
    }

    /// Subtract with borrow from the accumulator, setting Carry, Zero,
    /// Overflow and Negative.
    fn sbc_exec(&mut self, v: u8)
        ensures
            final(self)@ == sbc_model(old(self)@, v),
    {
        let c: u32 = if self.status.carry { 1 } else { 0 };
        let sum: u32 = self.a as u32 + 255 + c - v as u32;
        let r: u8 = (sum % 256) as u8;
        let a0: u8 = self.a;
        self.a = r;
        self.status.carry = a0 as u32 + c > v as u32;
        self.status.zero = r == 0;
        self.status.overflow = (a0 ^ r) & (a0 ^ v) & 0x80 != 0;
        self.status.negative = r & 0x80 != 0;
    }

    /// Compare a register against an operand: flags as a subtraction whose
    /// result is discarded, Overflow untouched.
    fn compare(&mut self, reg: u8, v: u8)
        ensures
            final(self)@ == (CpuModel {
                status: compare_flags(old(self)@.status, reg, v),
                ..old(self)@
            }),
    {
        let d: u8 = ((reg as u32 + 256 - v as u32) % 256) as u8;
        self.status.carry = reg >= v;
        self.status.zero = reg == v;
        self.status.negative = d & 0x80 != 0;
    }

    /// Pushes one byte onto the stack page and steps the stack pointer
    /// down with 8-bit wraparound.
    fn stack_push(&mut self, v: u8)
        requires
            old(self).wf(),
        ensures
            final(self).wf(),
            final(self)@ == push8(old(self)@, v),
    {
        let addr: u16 = 0x100 + self.sp as u16;
        self.mem_write(addr, v);
        self.sp = ((self.sp as u32 + 255) % 256) as u8;
    }

    /// Steps the stack pointer up with 8-bit wraparound and pulls the byte
    /// it lands on.
    fn stack_pop(&mut self) -> (r: u8)
        requires
            old(self).wf(),
        ensures
            final(self).wf(),
            final(self)@ == pop8(old(self)@).0,
            r == pop8(old(self)@).1,
    {
        self.sp = ((self.sp as u32 + 1) % 256) as u8;
        self.mem_read(0x100 + self.sp as u16)
    }

    /// A shift or rotate applied to the accumulator or to memory.
    fn shift_apply(&mut self, i: Instruction, acc: bool, addr: u16)
        requires
            old(self).wf(),
        ensures
            final(self).wf(),
            final(self)@ == shift_model(old(self)@, i, acc, addr),
    {
        let c: bool = self.status.carry;
        let v: u8 = if acc { self.a } else { self.mem_read(addr) };
        let r: u8 = match i {
            Instruction::ASL => ((v as u32 * 2) % 256) as u8,
            Instruction::LSR => v / 2,
            Instruction::ROL => ((v as u32 * 2 + if c { 1u32 } else { 0u32 }) % 256) as u8,
            Instruction::ROR => v / 2 + if c { 128u8 } else { 0u8 },
            _ => v,
        };
        let carry: bool = match i {
            Instruction::ASL => v & 0x80 != 0,
            Instruction::ROL => v & 0x80 != 0,
            _ => v & 1 != 0,
        };
        if acc {
            self.a = r;
        } else {
            self.mem_write(addr, r);
        }
        self.status.carry = carry;
        self.status.zero = r == 0;
        self.status.negative = r & 0x80 != 0;
    }

    /// Increments or decrements a memory cell modulo 256; Zero and
    /// Negative follow the new value, Carry stays.
    fn incdec(&mut self, addr: u16, up: bool)
        requires
            old(self).wf(),
        ensures
            final(self).wf(),
            final(self)@ == incdec_model(old(self)@, addr, up),
    {
        let v: u8 = self.mem_read(addr);
        let r: u8 = ((v as u32 + if up { 1u32 } else { 255u32 }) % 256) as u8;
        self.mem_write(addr, r);
        self.update_zero_and_negative(r);
    }

    /// A conditional branch with the program counter on the offset byte.
    /// Yields the extra cycles (one when taken, two when the target is on
    /// another page than the next instruction) and whether it redirected.
    fn branch_exec(&mut self, cond: bool) -> (r: (u8, bool))
        requires
            old(self).wf(),
        ensures
            final(self).wf(),
            ({
                let t = branch_effect(old(self)@, cond);
                final(self)@ == t.0 && r.0 == t.1 && r.1 == t.2
            }),
            r.0 <= 2,
    {
        if !cond {
            return (0, false);
        }
        let off: u8 = self.mem_read(self.pc);
        let next: u16 = ((self.pc as u32 + 1) % 0x10000) as u16;
        let t: u16 = if off < 0x80 {
            ((next as u32 + off as u32) % 0x10000) as u16
        } else {
            ((next as u32 + off as u32 + 0xFF00) % 0x10000) as u16
        };
        let extra: u8 = if t / 256 != next / 256 { 2 } else { 1 };
        self.pc = t;
        (extra, true)
    }

    /// Carries out the semantic effect of one decoded instruction, with
    /// the program counter already past the opcode byte. Yields the extra
    /// cycles beyond the table's base cost and whether the instruction
    /// redirected control flow.
    fn execute(&mut self, op: OP) -> (r: (u8, bool))
        requires
            old(self).wf(),
        ensures
            final(self).wf(),
            ({
                let t = effect(old(self)@, op);
                final(self)@ == t.0 && r.0 == t.1 && r.1 == t.2
            }),
            r.0 <= 2,
    {
        match op.instruction {
            Instruction::LDA
            | Instruction::LDX
            | Instruction::LDY
            | Instruction::STA
            | Instruction::STX
            | Instruction::STY
            | Instruction::TAX
            | Instruction::TAY
            | Instruction::TXA
            | Instruction::TYA
            | Instruction::TSX
            | Instruction::TXS => self.execute_move(op),
            Instruction::ADC
            | Instruction::SBC
            | Instruction::CMP
            | Instruction::CPX
            | Instruction::CPY => self.execute_arith(op),
            Instruction::AND
            | Instruction::ORA
            | Instruction::EOR
            | Instruction::BIT => self.execute_logic(op),
            Instruction::ASL
            | Instruction::LSR
            | Instruction::ROL
            | Instruction::ROR
            | Instruction::INC
            | Instruction::DEC
            | Instruction::INX
            | Instruction::INY
            | Instruction::DEX
            | Instruction::DEY => self.execute_rmw(op),
            Instruction::JMP
            | Instruction::JSR
            | Instruction::RTS
            | Instruction::RTI
            | Instruction::BCC
            | Instruction::BCS
            | Instruction::BEQ
            | Instruction::BNE
            | Instruction::BMI
            | Instruction::BPL
            | Instruction::BVC
            | Instruction::BVS => self.execute_control(op),
            _ => self.execute_stack_flags(op),
        }
    }

    /// The load, store and transfer instructions.
    fn execute_move(&mut self, op: OP) -> (r: (u8, bool))
        requires
            old(self).wf(),
            crate::model::is_move_op(op.instruction),
        ensures
            final(self).wf(),
            ({
                let t = effect(old(self)@, op);
                final(self)@ == t.0 && r.0 == t.1 && r.1 == t.2
            }),
            r.0 <= 2,
    {
        proof {
            reveal(crate::model::effect);
        }
        match op.instruction {
            Instruction::LDA => {
                let (addr, crossed): (u16, bool) = self.resolve(&op.mode);
                let v: u8 = self.mem_read(addr);
                self.set_a_zn(v);
                (if crossed { 1u8 } else { 0u8 }, false)
            },
            Instruction::LDX => {
                let (addr, crossed): (u16, bool) = self.resolve(&op.mode);
                let v: u8 = self.mem_read(addr);
                self.set_x_zn(v);
                (if crossed { 1u8 } else { 0u8 }, false)
            },
            Instruction::LDY => {
                let (addr, crossed): (u16, bool) = self.resolve(&op.mode);
                let v: u8 = self.mem_read(addr);
                self.set_y_zn(v);
                (if crossed { 1u8 } else { 0u8 }, false)
            },
            Instruction::STA => {
                let (addr, _crossed): (u16, bool) = self.resolve(&op.mode);
                let v: u8 = self.a;
                self.mem_write(addr, v);
                (0u8, false)
            },
            Instruction::STX => {
                let (addr, _crossed): (u16, bool) = self.resolve(&op.mode);
                let v: u8 = self.x;
                self.mem_write(addr, v);
                (0u8, false)
            },
            Instruction::STY => {
                let (addr, _crossed): (u16, bool) = self.resolve(&op.mode);
                let v: u8 = self.y;
                self.mem_write(addr, v);
                (0u8, false)
            },
            Instruction::TAX => {
                let v: u8 = self.a;
                self.set_x_zn(v);
                (0u8, false)
            },
            Instruction::TAY => {
                let v: u8 = self.a;
                self.set_y_zn(v);
                (0u8, false)
            },
            Instruction::TXA => {
                let v: u8 = self.x;
                self.set_a_zn(v);
                (0u8, false)
            },
            Instruction::TYA => {
                let v: u8 = self.y;
                self.set_a_zn(v);
                (0u8, false)
            },
            Instruction::TSX => {
                let v: u8 = self.sp;
                self.set_x_zn(v);
                (0u8, false)
            },
            Instruction::TXS => {
                self.sp = self.x;
                (0u8, false)
            },
            _ => unreached(),
        }
    }

    /// The add, subtract and compare instructions.
    #[verifier::rlimit(100)]
    fn execute_arith(&mut self, op: OP) -> (r: (u8, bool))
        requires
            old(self).wf(),
            op.instruction is ADC || op.instruction is SBC || op.instruction is CMP
                || op.instruction is CPX || op.instruction is CPY,
        ensures
            final(self).wf(),
            ({
                let t = effect(old(self)@, op);
                final(self)@ == t.0 && r.0 == t.1 && r.1 == t.2
            }),
            r.0 <= 2,
    {
        proof {
            reveal(crate::model::effect);
        }
        match op.instruction {
            Instruction::ADC => {
                let (addr, crossed): (u16, bool) = self.resolve(&op.mode);
                let v: u8 = self.mem_read(addr);
                self.adc_exec(v);
                (if crossed { 1u8 } else { 0u8 }, false)
            },
            Instruction::SBC => {
                let (addr, crossed): (u16, bool) = self.resolve(&op.mode);
                let v: u8 = self.mem_read(addr);
                self.sbc_exec(v);
                (if crossed { 1u8 } else { 0u8 }, false)
            },
            Instruction::CMP => {
                let (addr, crossed): (u16, bool) = self.resolve(&op.mode);
                let v: u8 = self.mem_read(addr);
                let reg: u8 = self.a;
                self.compare(reg, v);
                (if crossed { 1u8 } else { 0u8 }, false)
            },
            Instruction::CPX => {
                let (addr, _crossed): (u16, bool) = self.resolve(&op.mode);
                let v: u8 = self.mem_read(addr);
                let reg: u8 = self.x;
                self.compare(reg, v);
                (0u8, false)
            },
            Instruction::CPY => {
                let (addr, _crossed): (u16, bool) = self.resolve(&op.mode);
                let v: u8 = self.mem_read(addr);
                let reg: u8 = self.y;
                self.compare(reg, v);
                (0u8, false)
            },
            _ => unreached(),
        }
    }

    /// The bitwise logical and bit-test instructions.
    #[verifier::rlimit(100)]
    fn execute_logic(&mut self, op: OP) -> (r: (u8, bool))
        requires
            old(self).wf(),
            op.instruction is AND || op.instruction is ORA || op.instruction is EOR
                || op.instruction is BIT,
        ensures
            final(self).wf(),
            ({
                let t = effect(old(self)@, op);
                final(self)@ == t.0 && r.0 == t.1 && r.1 == t.2
            }),
            r.0 <= 2,
    {
        proof {
            reveal(crate::model::effect);
        }
        match op.instruction {
            Instruction::AND => {
                let (addr, crossed): (u16, bool) = self.resolve(&op.mode);
                let v: u8 = self.mem_read(addr);
                let r: u8 = self.a & v;
                self.set_a_zn(r);
                (if crossed { 1u8 } else { 0u8 }, false)
            },
            Instruction::ORA => {
                let (addr, crossed): (u16, bool) = self.resolve(&op.mode);
                let v: u8 = self.mem_read(addr);
                let r: u8 = self.a | v;
                self.set_a_zn(r);
                (if crossed { 1u8 } else { 0u8 }, false)
            },
            Instruction::EOR => {
                let (addr, crossed): (u16, bool) = self.resolve(&op.mode);
                let v: u8 = self.mem_read(addr);
                let r: u8 = self.a ^ v;
                self.set_a_zn(r);
                (if crossed { 1u8 } else { 0u8 }, false)
            },
            Instruction::BIT => {
                let (addr, _crossed): (u16, bool) = self.resolve(&op.mode);
                let v: u8 = self.mem_read(addr);
                self.status.zero = self.a & v == 0;
                self.status.overflow = v & 0x40 != 0;
                self.status.negative = v & 0x80 != 0;
                (0u8, false)
            },
            _ => unreached(),
        }
    }

    /// The shift, rotate, increment and decrement instructions.
    fn execute_rmw(&mut self, op: OP) -> (r: (u8, bool))
        requires
            old(self).wf(),
            crate::model::is_rmw_op(op.instruction),
        ensures
            final(self).wf(),
            ({
                let t = effect(old(self)@, op);
                final(self)@ == t.0 && r.0 == t.1 && r.1 == t.2
            }),
            r.0 <= 2,
    {
        proof {
            reveal(crate::model::effect);
        }
        match op.instruction {
            Instruction::ASL | Instruction::LSR | Instruction::ROL | Instruction::ROR => {
                let acc: bool = matches!(op.mode, AddressingMode::Accumulator);
                let addr: u16 = if acc { 0 } else { self.resolve(&op.mode).0 };
                self.shift_apply(op.instruction, acc, addr);
                (0u8, false)
            },
            Instruction::INC => {
                let (addr, _crossed): (u16, bool) = self.resolve(&op.mode);
                self.incdec(addr, true);
                (0u8, false)
            },
            Instruction::DEC => {
                let (addr, _crossed): (u16, bool) = self.resolve(&op.mode);
                self.incdec(addr, false);
                (0u8, false)
            },
            Instruction::INX => {
                let r: u8 = ((self.x as u32 + 1) % 256) as u8;
                self.set_x_zn(r);
                (0u8, false)
            },
            Instruction::INY => {
                let r: u8 = ((self.y as u32 + 1) % 256) as u8;
                self.set_y_zn(r);
                (0u8, false)
            },
            Instruction::DEX => {
                let r: u8 = ((self.x as u32 + 255) % 256) as u8;
                self.set_x_zn(r);
                (0u8, false)
            },
            Instruction::DEY => {
                let r: u8 = ((self.y as u32 + 255) % 256) as u8;
                self.set_y_zn(r);
                (0u8, false)
            },
            _ => unreached(),
        }
    }

    /// The jump, call, return and conditional branch instructions.
    #[verifier::rlimit(100)]
    fn execute_control(&mut self, op: OP) -> (r: (u8, bool))
        requires
            old(self).wf(),
            crate::model::is_control_op(op.instruction),
        ensures
            final(self).wf(),
            ({
                let t = effect(old(self)@, op);
                final(self)@ == t.0 && r.0 == t.1 && r.1 == t.2
            }),
            r.0 <= 2,
    {
        proof {
            reveal(crate::model::effect);
        }
        match op.instruction {
            Instruction::JMP => {
                let (addr, _crossed): (u16, bool) = self.resolve(&op.mode);
                self.pc = addr;
                (0u8, true)
            },
            Instruction::JSR => {
                let (addr, _crossed): (u16, bool) = self.resolve(&op.mode);
                let ret: u16 = ((self.pc as u32 + 1) % 0x10000) as u16;
                self.stack_push((ret / 256) as u8);
                self.stack_push((ret % 256) as u8);
                self.pc = addr;
                (0u8, true)
            },
            Instruction::RTS => {
                let lo: u8 = self.stack_pop();
                let hi: u8 = self.stack_pop();
                self.pc = ((lo as u32 + 256 * hi as u32 + 1) % 0x10000) as u16;
                (0u8, true)
            },
            Instruction::RTI => {
                let s: u8 = self.stack_pop();
                self.status = unpack_flags(s);
                let lo: u8 = self.stack_pop();
                let hi: u8 = self.stack_pop();
                self.pc = lo as u16 + 256 * hi as u16;
                (0u8, true)
            },
            Instruction::BCC => {
                let c: bool = !self.status.carry;
                self.branch_exec(c)
            },
            Instruction::BCS => {
                let c: bool = self.status.carry;
                self.branch_exec(c)
            },
            Instruction::BEQ => {
                let c: bool = self.status.zero;
                self.branch_exec(c)
            },
            Instruction::BNE => {
                let c: bool = !self.status.zero;
                self.branch_exec(c)
            },
            Instruction::BMI => {
                let c: bool = self.status.negative;
                self.branch_exec(c)
            },
            Instruction::BPL => {
                let c: bool = !self.status.negative;
                self.branch_exec(c)
            },
            Instruction::BVS => {
                let c: bool = self.status.overflow;
                self.branch_exec(c)
            },
            Instruction::BVC => {
                let c: bool = !self.status.overflow;
                self.branch_exec(c)
            },
            _ => unreached(),
        }
    }

    /// The stack push and pull, flag set and clear, break and
    /// no-operation instructions.
    #[verifier::rlimit(100)]
    fn execute_stack_flags(&mut self, op: OP) -> (r: (u8, bool))
        requires
            old(self).wf(),
            crate::model::is_stack_or_flag_op(op.instruction),
        ensures
            final(self).wf(),
            ({
                let t = effect(old(self)@, op);
                final(self)@ == t.0 && r.0 == t.1 && r.1 == t.2
            }),
            r.0 <= 2,
    {
        proof {
            reveal(crate::model::effect);
        }
        match op.instruction {
            Instruction::PHA => {
                let v: u8 = self.a;
                self.stack_push(v);
                (0u8, false)
            },
            Instruction::PHP => {
                let f: Flags = Flags { brk: true, unused: true, ..self.status };
                let b: u8 = pack_flags(&f);
                self.stack_push(b);
                (0u8, false)
            },
            Instruction::PLA => {
                let v: u8 = self.stack_pop();
                self.set_a_zn(v);
                (0u8, false)
            },
            Instruction::PLP => {
                let v: u8 = self.stack_pop();
                self.status = unpack_flags(v);
                (0u8, false)
            },
            Instruction::CLC => {
                self.status.carry = false;
                (0u8, false)
            },
            Instruction::SEC => {
                self.status.carry = true;
                (0u8, false)
            },
            Instruction::CLI => {
                self.status.interrupt_disable = false;
                (0u8, false)
            },
            Instruction::SEI => {
                self.status.interrupt_disable = true;
                (0u8, false)
            },
            Instruction::CLD => {
                self.status.decimal = false;
                (0u8, false)
            },
            Instruction::SED => {
                self.status.decimal = true;
                (0u8, false)
            },
            Instruction::CLV => {
                self.status.overflow = false;
                (0u8, false)
            },
            Instruction::BRK => {
                self.halted = true;
                (0u8, false)
            },
            Instruction::NOP => (0u8, false),
            _ => unreached(),
        }
    }

    /// Executes exactly one instruction: fetches the opcode under the
    /// program counter, decodes it against the table, resolves its
    /// operand, applies its effect, advances the program counter unless
    /// control flow was redirected, and accounts the cycle cost. An
    /// undefined opcode is a fatal condition: the error names the byte and
    /// the machine does not move.
    pub fn step(&mut self) -> (r: Result<u8, CpuError>)
        requires
            old(self).wf(),
        ensures
            final(self).wf(),
            match step_model(old(self)@) {
                Some(t) => r == Ok::<u8, CpuError>(t.1) && final(self)@ == t.0,
                None => r == Err::<u8, CpuError>(
                    CpuError::IllegalOpcode(r8(old(self)@, old(self)@.pc)),
                ) && final(self)@ == old(self)@,
            },
    {
        let code: u8 = self.mem_read(self.pc);
        match lookup(code) {
            None => Err(CpuError::IllegalOpcode(code)),
            Some(op) => {
                proof {
                    crate::model::lemma_entry_bounds(code);
                }
                let ghost m0 = self@;
                let pc0: u16 = self.pc;
                let cyc0: u64 = self.cycles;
                self.pc = ((self.pc as u32 + 1) % 0x10000) as u16;
                proof {
                    assert(self@ == (CpuModel { pc: w16(m0.pc + 1), ..m0 }));
                }
                let (extra, redirected): (u8, bool) = self.execute(op);
                if !redirected {
                    self.pc = ((pc0 as u32 + op.len as u32) % 0x10000) as u16;
                }
                let total: u8 = op.cycles + extra;
                self.cycles = ((cyc0 as u128 + total as u128)
                    % 0x1_0000_0000_0000_0000) as u64;
                Ok(total)
            },
        }
    }

    /// Convenience loop: steps until the processor halts on a break
    /// instruction, an undefined opcode surfaces, or the caller-supplied
    /// instruction budget runs out. The final machine and the number of
    /// instructions executed are exactly what the bounded model run
    /// yields; on an undefined opcode the machine stays at the faulting
    /// instruction, which is never skipped.
    pub fn run_until_halt(&mut self, max_steps: u64) -> (r: Result<u64, CpuError>)
        requires
            old(self).wf(),
        ensures
            final(self).wf(),
            final(self)@ == run_model(old(self)@, max_steps).0,
            match r {
                Ok(n) => !run_model(old(self)@, max_steps).2
                    && n == run_model(old(self)@, max_steps).1
                    && n <= max_steps && (final(self)@.halted || n == max_steps),
                Err(e) => run_model(old(self)@, max_steps).2
                    && e == CpuError::IllegalOpcode(r8(final(self)@, final(self)@.pc))
                    && entry_for(r8(final(self)@, final(self)@.pc)) is None,
            },
    {
        let ghost m0 = self@;
        let mut i: u64 = 0;
        while i < max_steps
            invariant
                self.wf(),
                i <= max_steps,
                m0 == old(self)@,
                crate::model::wf(m0),
                run_model(m0, max_steps) == ({
                    let rest = run_model(self@, (max_steps - i) as u64);
                    (rest.0, (rest.1 + i) as nat, rest.2)
                }),
            decreases max_steps - i,
        {
            if self.halted {
                return Ok(i);
            }
            if let Err(e) = self.step() {
                return Err(e);
            }
            i = i + 1;
        }
        Ok(i)
    }

    /// Installs a program image at the conventional load address, resets
    /// the processor to it, and runs with the given instruction budget.
    /// The outcome — final machine, instruction count, success or fault —
    /// is exactly the bounded model run from that start state. A program
    /// longer than the space above the load address is rejected whole and
    /// nothing changes.
    pub fn interpret(&mut self, program: &[u8], max_steps: u64) -> (r: Result<u64, CpuError>)
        requires
            old(self).wf(),
        ensures
            final(self).wf(),
            program@.len() > 0x8000 ==> r == Err::<u64, CpuError>(CpuError::LoadOutOfRange)
                && final(self)@ == old(self)@,
            program@.len() <= 0x8000 ==> ({
                let run = run_model(interpret_start(old(self)@, program@), max_steps);
                final(self)@ == run.0 && match r {
                    Ok(n) => !run.2 && n == run.1
                        && n <= max_steps && (final(self)@.halted || n == max_steps),
                    Err(e) => run.2
                        && e == CpuError::IllegalOpcode(r8(final(self)@, final(self)@.pc))
                        && entry_for(r8(final(self)@, final(self)@.pc)) is None,
                }
            }),
    {
        if program.len() > 0x8000 {
            return Err(CpuError::LoadOutOfRange);
        }
        let ghost m0 = self@;
        if let Err(e) = self.load(0x8000, program) {
            return Err(e);
        }
        proof {
            assert(self@.mem =~= m0.mem.subrange(0, 0x8000) + program@ + m0.mem.subrange(
                0x8000 + program@.len() as int,
                0x10000,
            ));
        }
        self.reset(0x8000);
        proof {
            assert(self@ == interpret_start(m0, program@));
        }
        self.run_until_halt(max_steps)
    }
}

/// The machine as `interpret` arranges it before running: the program
/// image copied in at the conventional load address and the processor
/// reset to it.
pub open spec fn interpret_start(m: CpuModel, program: Seq<u8>) -> CpuModel
    recommends
        crate::model::wf(m),
        program.len() <= 0x8000,
{
    CpuModel {
        a: 0u8,
        x: 0u8,
        y: 0u8,
        sp: 0xFDu8,
        pc: 0x8000u16,
        status: Flags {
            carry: false,
            zero: false,
            interrupt_disable: true,
            decimal: false,
            brk: false,
            unused: true,
            overflow: false,
            negative: false,
        },
        mem: m.mem.subrange(0, 0x8000) + program + m.mem.subrange(
            0x8000 + program.len() as int,
            0x10000,
        ),
        cycles: 0u64,
        halted: false,
    }
}

} // verus!
