//! The CPU execution engine: registers, flags, the fetch-decode-execute
//! loop. Every step is proved equal to the pure transition in [`crate::model`].

use vstd::prelude::*;

use crate::addressing::{resolve, Operand};
use crate::bus::{loaded_mem, lemma_loaded_mem_len, Bus, MEM_SIZE};
use crate::flags::Flags;
use crate::model::{
    adc_spec, and_spec, asl_spec, bit_spec, branch_spec, brk_spec, compare_spec, dec_spec,
    decode_ok, dex_spec, dey_spec, eor_spec, inc_spec, inx_spec, iny_spec, jmp_spec, jsr_spec,
    lda_spec, ldx_spec, ldy_spec, lemma_run_spec_add, lemma_run_spec_step, lsr_spec,
    operand_value, ora_spec, pha_spec, php_spec, pla_spec, plp_spec, pull_spec, pull_word_spec,
    push_spec, push_word_spec, rol_spec, ror_spec, rti_spec, rts_spec, run_spec, sbc_spec,
    sta_spec, step_spec, stx_spec, sty_spec, tax_spec, tay_spec, tsx_spec, txa_spec, txs_spec,
    tya_spec, with_zn, written, CpuView,
};
use crate::opcodes::{lemma_opcode_info_valid, Mnemonic, OpcodeTable};

verus! {

/// The fixed program load and run address of this configuration. A reset
/// forces the program counter here rather than reading a hardware reset
/// vector.
pub const LOAD_ADDR: u16 = 0x0600;

/// A fatal engine failure. The engine halts and attempts no repair.
#[derive(Clone, Copy, PartialEq, Eq, Structural, Debug)]
pub enum EmuError {
    /// An instruction byte absent from the opcode table, with the byte and
    /// the program counter at which it was fetched.
    UnknownOpcode { code: u8, pc: u16 },
}

/// The register state a reset establishes over the given memory: registers
/// zeroed, stack pointer 0xFD, flags at their documented default, program
/// counter at the fixed load address, not halted.
pub open spec fn reset_view(mem: Seq<u8>) -> CpuView {
    CpuView {
        a: 0,
        x: 0,
        y: 0,
        sp: 0xFD,
        pc: LOAD_ADDR,
        flags: Flags::reset_spec(),
        mem,
        halted: false,
    }
}

/// Receives one notification per retired instruction, with a read-only
/// handle on the processor state. Returning `false` requests an immediate,
/// unconditional stop of the run loop.
pub trait InstructionSink {
    fn instruction_retired(&mut self, cpu: &Cpu) -> bool;
}

/// The processor: registers, flags, program counter, stack pointer, and
/// exclusive ownership of its memory bus.
pub struct Cpu {
    pub reg_a: u8,
    pub reg_x: u8,
    pub reg_y: u8,
    pub stack_pointer: u8,
    pub program_counter: u16,
    pub status: Flags,
    pub halted: bool,
    pub bus: Bus,
    /// The immutable opcode registry, built once and read-only thereafter.
    pub table: OpcodeTable,
}

impl View for Cpu {
    type V = CpuView;

    open spec fn view(&self) -> CpuView {
        CpuView {
            a: self.reg_a,
            x: self.reg_x,
            y: self.reg_y,
            sp: self.stack_pointer,
            pc: self.program_counter,
            flags: self.status,
            mem: self.bus@,
            halted: self.halted,
        }
    }
}

impl Cpu {
    pub open spec fn wf(self) -> bool {
        self.table.wf() && self.bus.wf()
    }

    /// A processor over `bus`, in the reset state.
    pub fn new(bus: Bus) -> (r: Cpu)
        requires
            bus.wf(),
        ensures
            r.wf(),
            r@ == reset_view(bus@),
    {
        let cpu = Cpu {
            reg_a: 0,
            reg_x: 0,
            reg_y: 0,
            stack_pointer: 0xFD,
            program_counter: LOAD_ADDR,
            status: Flags::reset(),
            halted: false,
            bus,
            table: OpcodeTable::new(),
        };
        proof {
            assert(cpu@ =~= reset_view(cpu.bus@));
        }
        cpu
    }

    /// Reinitializes registers, flags and the stack pointer without
    /// recreating the bus; loaded memory contents are preserved.
    pub fn reset(&mut self)
        requires
            old(self).wf(),
        ensures
            final(self).wf(),
            final(self)@ == reset_view(old(self)@.mem),
    {
        self.reg_a = 0;
        self.reg_x = 0;
        self.reg_y = 0;
        self.stack_pointer = 0xFD;
        self.program_counter = LOAD_ADDR;
        self.status = Flags::reset();
        self.halted = false;
        proof {
            assert(self@ =~= reset_view(old(self)@.mem));
        }
    }

    /// Copies a program verbatim into the bus at the fixed load address;
    /// registers and flags are untouched.
    pub fn load(&mut self, program: &Vec<u8>)
        requires
            old(self).wf(),
            program@.len() <= MEM_SIZE,
        ensures
            final(self).wf(),
            final(self)@ == (CpuView {
                mem: loaded_mem(old(self)@.mem, program@, LOAD_ADDR),
                ..old(self)@
            }),
    {
        proof {
            lemma_loaded_mem_len(self.bus@, program@, LOAD_ADDR);
        }
        self.bus.load_bytes(program, LOAD_ADDR);
        proof {
            assert(self@ =~= (CpuView {
                mem: loaded_mem(old(self)@.mem, program@, LOAD_ADDR),
                ..old(self)@
            }));
        }
    }

    /// Pushes a byte onto the stack in page 1; the stack pointer wraps
    /// 0x00 to 0xFF with no bank crossing.
    pub fn stack_push(&mut self, v: u8)
        requires
            old(self).wf(),
        ensures
            final(self).wf(),
            final(self)@ == push_spec(old(self)@, v),
    {
        let addr = 0x100u16 + self.stack_pointer as u16;
        self.bus.write(addr, v);
        self.stack_pointer = self.stack_pointer.wrapping_sub(1);
        proof {
            assert(self@ =~= push_spec(old(self)@, v));
        }
    }

    /// Pulls a byte from the stack in page 1; the stack pointer wraps
    /// 0xFF to 0x00 with no bank crossing.
    pub fn stack_pull(&mut self) -> (r: u8)
        requires
            old(self).wf(),
        ensures
            final(self).wf(),
            final(self)@ == pull_spec(old(self)@).0,
            r == pull_spec(old(self)@).1,
    {
        self.stack_pointer = self.stack_pointer.wrapping_add(1);
        let r = self.bus.read(0x100u16 + self.stack_pointer as u16);
        proof {
            assert(self@ =~= pull_spec(old(self)@).0);
        }
        r
    }

    fn push_word(&mut self, w: u16)
        requires
            old(self).wf(),
        ensures
            final(self).wf(),
            final(self)@ == push_word_spec(old(self)@, w),
    {
        self.stack_push((w / 0x100) as u8);
        self.stack_push((w % 0x100) as u8);
    }

    fn pull_word(&mut self) -> (r: u16)
        requires
            old(self).wf(),
        ensures
            final(self).wf(),
            final(self)@ == pull_word_spec(old(self)@).0,
            r == pull_word_spec(old(self)@).1,
    {
        let lo = self.stack_pull();
        let hi = self.stack_pull();
        (lo as u16) + (hi as u16) * 0x100
    }

    /// The byte the resolved operand designates.
    fn read_operand(&self, op: Operand) -> (r: u8)
        requires
            self.wf(),
        ensures
            r == operand_value(self@.mem, op),
    {
        match op {
            Operand::Implied => 0,
            Operand::Immediate(v) => v,
            Operand::Memory(a) => self.bus.read(a),
        }
    }

    fn write_operand(&mut self, op: Operand, v: u8)
        requires
            old(self).wf(),
        ensures
            final(self).wf(),
            final(self)@ == written(old(self)@, op, v),
    {
        match op {
            Operand::Memory(a) => {
                self.bus.write(a, v);
                proof {
                    assert(self@ =~= written(old(self)@, op, v));
                }
            },
            _ => {},
        }
    }

    fn set_zn(&mut self, v: u8)
        ensures
            *final(self) == (Cpu { status: with_zn(old(self).status, v), ..*old(self) }),
    {
        self.status.zero = v == 0;
        self.status.negative = v >= 0x80;
    }

    fn lda(&mut self, op: Operand)
        requires
            old(self).wf(),
        ensures
            final(self).wf(),
            final(self)@ == lda_spec(old(self)@, op),
    {
        let v = self.read_operand(op);
        self.reg_a = v;
        self.set_zn(v);
    }

    fn ldx(&mut self, op: Operand)
        requires
            old(self).wf(),
        ensures
            final(self).wf(),
            final(self)@ == ldx_spec(old(self)@, op),
    {
        let v = self.read_operand(op);
        self.reg_x = v;
        self.set_zn(v);
    }

    fn ldy(&mut self, op: Operand)
        requires
            old(self).wf(),
        ensures
            final(self).wf(),
            final(self)@ == ldy_spec(old(self)@, op),
    {
        let v = self.read_operand(op);
        self.reg_y = v;
        self.set_zn(v);
    }

    fn adc(&mut self, op: Operand)
        requires
            old(self).wf(),
        ensures
            final(self).wf(),
            final(self)@ == adc_spec(old(self)@, op),
    {
        let v = self.read_operand(op);
        let carry_in: u16 = if self.status.carry {
            1
        } else {
            0
        };
        let sum: u16 = self.reg_a as u16 + v as u16 + carry_in;
        let r: u8 = (sum % 0x100) as u8;
        let a_neg = self.reg_a >= 0x80;
        self.status.carry = sum > 0xFF;
        self.status.overflow = (a_neg == (v >= 0x80)) && ((r >= 0x80) != a_neg);
        self.reg_a = r;
        self.set_zn(r);
    }

    fn sbc(&mut self, op: Operand)
        requires
            old(self).wf(),
        ensures
            final(self).wf(),
            final(self)@ == sbc_spec(old(self)@, op),
    {
        let v = self.read_operand(op);
        let borrow: u16 = if self.status.carry {
            0
        } else {
            1
        };
        let diff: u16 = self.reg_a as u16 + 0x100 - v as u16 - borrow;
        let r: u8 = (diff % 0x100) as u8;
        let a_neg = self.reg_a >= 0x80;
        self.status.carry = self.reg_a as u16 >= v as u16 + borrow;
        self.status.overflow = (a_neg != (v >= 0x80)) && ((r >= 0x80) != a_neg);
        self.reg_a = r;
        self.set_zn(r);
    }

    fn compare(&mut self, reg: u8, op: Operand)
        requires
            old(self).wf(),
        ensures
            final(self).wf(),
            final(self)@ == compare_spec(old(self)@, reg, op),
    {
        let v = self.read_operand(op);
        let d: u8 = ((reg as u16 + 0x100 - v as u16) % 0x100) as u8;
        self.status.carry = reg >= v;
        self.status.zero = reg == v;
        self.status.negative = d >= 0x80;
    }

    fn and(&mut self, op: Operand)
        requires
            old(self).wf(),
        ensures
            final(self).wf(),
            final(self)@ == and_spec(old(self)@, op),
    {
        let r = self.reg_a & self.read_operand(op);
        self.reg_a = r;
        self.set_zn(r);
    }

    fn ora(&mut self, op: Operand)
        requires
            old(self).wf(),
        ensures
            final(self).wf(),
            final(self)@ == ora_spec(old(self)@, op),
    {
        let r = self.reg_a | self.read_operand(op);
        self.reg_a = r;
        self.set_zn(r);
    }

    fn eor(&mut self, op: Operand)
        requires
            old(self).wf(),
        ensures
            final(self).wf(),
            final(self)@ == eor_spec(old(self)@, op),
    {
        let r = self.reg_a ^ self.read_operand(op);
        self.reg_a = r;
        self.set_zn(r);
    }

    fn bit(&mut self, op: Operand)
        requires
            old(self).wf(),
        ensures
            final(self).wf(),
            final(self)@ == bit_spec(old(self)@, op),
    {
        let v = self.read_operand(op);
        self.status.zero = (self.reg_a & v) == 0;
        self.status.negative = v >= 0x80;
        self.status.overflow = (v / 0x40) % 2 == 1;
    }

    fn asl(&mut self, op: Operand)
        requires
            old(self).wf(),
        ensures
            final(self).wf(),
            final(self)@ == asl_spec(old(self)@, op),
    {
        let v = match op {
            Operand::Memory(_) => self.read_operand(op),
            _ => self.reg_a,
        };
        let r: u8 = ((v as u16 * 2) % 0x100) as u8;
        let carry = v >= 0x80;
        match op {
            Operand::Memory(_) => self.write_operand(op, r),
            _ => self.reg_a = r,
        }
        self.status.carry = carry;
        self.set_zn(r);
    }

    fn lsr(&mut self, op: Operand)
        requires
            old(self).wf(),
        ensures
            final(self).wf(),
            final(self)@ == lsr_spec(old(self)@, op),
    {
        let v = match op {
            Operand::Memory(_) => self.read_operand(op),
            _ => self.reg_a,
        };
        let r: u8 = v / 2;
        let carry = v % 2 == 1;
        match op {
            Operand::Memory(_) => self.write_operand(op, r),
            _ => self.reg_a = r,
        }
        self.status.carry = carry;
        self.set_zn(r);
    }

    fn rol(&mut self, op: Operand)
        requires
            old(self).wf(),
        ensures
            final(self).wf(),
            final(self)@ == rol_spec(old(self)@, op),
    {
        let v = match op {
            Operand::Memory(_) => self.read_operand(op),
            _ => self.reg_a,
        };
        let carry_in: u16 = if self.status.carry {
            1
        } else {
            0
        };
        let r: u8 = ((v as u16 * 2 + carry_in) % 0x100) as u8;
        let carry = v >= 0x80;
        match op {
            Operand::Memory(_) => self.write_operand(op, r),
            _ => self.reg_a = r,
        }
        self.status.carry = carry;
        self.set_zn(r);
    }

    fn ror(&mut self, op: Operand)
        requires
            old(self).wf(),
        ensures
            final(self).wf(),
            final(self)@ == ror_spec(old(self)@, op),
    {
        let v = match op {
            Operand::Memory(_) => self.read_operand(op),
            _ => self.reg_a,
        };
        let r: u8 = v / 2 + (if self.status.carry {
            0x80
        } else {
            0
        });
        let carry = v % 2 == 1;
        match op {
            Operand::Memory(_) => self.write_operand(op, r),
            _ => self.reg_a = r,
        }
        self.status.carry = carry;
        self.set_zn(r);
    }

    fn inc(&mut self, op: Operand)
        requires
            old(self).wf(),
        ensures
            final(self).wf(),
            final(self)@ == inc_spec(old(self)@, op),
    {
        let r = self.read_operand(op).wrapping_add(1);
        self.write_operand(op, r);
        self.set_zn(r);
    }

    fn dec(&mut self, op: Operand)
        requires
            old(self).wf(),
        ensures
            final(self).wf(),
            final(self)@ == dec_spec(old(self)@, op),
    {
        let r = self.read_operand(op).wrapping_sub(1);
        self.write_operand(op, r);
        self.set_zn(r);
    }

    fn branch(&mut self, off: u8, taken: bool)
        requires
            old(self).wf(),
        ensures
            final(self).wf(),
            final(self)@ == branch_spec(old(self)@, off, taken),
    {
        if taken {
            let t = self.program_counter.wrapping_add(off as u16);
            self.program_counter = if off < 0x80 {
                t
            } else {
                t.wrapping_sub(0x100)
            };
        }
    }

    fn jmp(&mut self, op: Operand)
        requires
            old(self).wf(),
        ensures
            final(self).wf(),
            final(self)@ == jmp_spec(old(self)@, op),
    {
        match op {
            Operand::Memory(target) => self.program_counter = target,
            _ => {},
        }
    }

    fn jsr(&mut self, op: Operand)
        requires
            old(self).wf(),
        ensures
            final(self).wf(),
            final(self)@ == jsr_spec(old(self)@, op),
    {
        match op {
            Operand::Memory(target) => {
                let ret = self.program_counter.wrapping_sub(1);
                self.push_word(ret);
                self.program_counter = target;
            },
            _ => {},
        }
    }

    fn rts(&mut self)
        requires
            old(self).wf(),
        ensures
            final(self).wf(),
            final(self)@ == rts_spec(old(self)@),
    {
        let w = self.pull_word();
        self.program_counter = w.wrapping_add(1);
    }

    fn rti(&mut self)
        requires
            old(self).wf(),
        ensures
            final(self).wf(),
            final(self)@ == rti_spec(old(self)@),
    {
        let fb = self.stack_pull();
        let mut f = Flags::from_byte(fb);
        f.brk = false;
        f.break2 = true;
        self.status = f;
        let w = self.pull_word();
        self.program_counter = w;
    }

    fn brk(&mut self)
        requires
            old(self).wf(),
        ensures
            final(self).wf(),
            final(self)@ == brk_spec(old(self)@),
    {
        let ret = self.program_counter;
        self.push_word(ret);
        let mut copy = self.status;
        copy.brk = true;
        copy.break2 = true;
        let b = copy.to_byte();
        self.stack_push(b);
        self.status.interrupt_disable = true;
        self.program_counter = self.bus.read_word(0xFFFE);
        self.halted = true;
    }

    fn pha(&mut self)
        requires
            old(self).wf(),
        ensures
            final(self).wf(),
            final(self)@ == pha_spec(old(self)@),
    {
        let v = self.reg_a;
        self.stack_push(v);
    }

    fn php(&mut self)
        requires
            old(self).wf(),
        ensures
            final(self).wf(),
            final(self)@ == php_spec(old(self)@),
    {
        let mut copy = self.status;
        copy.brk = true;
        copy.break2 = true;
        let b = copy.to_byte();
        self.stack_push(b);
    }

    fn pla(&mut self)
        requires
            old(self).wf(),
        ensures
            final(self).wf(),
            final(self)@ == pla_spec(old(self)@),
    {
        let v = self.stack_pull();
        self.reg_a = v;
        self.set_zn(v);
    }

    fn plp(&mut self)
        requires
            old(self).wf(),
        ensures
            final(self).wf(),
            final(self)@ == plp_spec(old(self)@),
    {
        let v = self.stack_pull();
        let mut f = Flags::from_byte(v);
        f.brk = false;
        f.break2 = true;
        self.status = f;
    }

    /// One fetch-decode-execute step. The effect on the whole processor
    /// state is exactly [`step_spec`]; an unknown opcode halts the engine
    /// and reports the offending byte and the program counter at which it
    /// was fetched.
    pub fn step(&mut self) -> (r: Result<(), EmuError>)
        requires
            old(self).wf(),
            !old(self)@.halted,
        ensures
            final(self).wf(),
            final(self)@ == step_spec(old(self)@),
            decode_ok(old(self)@) ==> r == Ok::<(), EmuError>(()),
            !decode_ok(old(self)@) ==> r == Err::<(), EmuError>(
                EmuError::UnknownOpcode {
                    code: old(self)@.mem[old(self)@.pc as int],
                    pc: old(self)@.pc,
                },
            ),
    {
        let fetch_pc = self.program_counter;
        let code = self.bus.read(fetch_pc);
        self.program_counter = fetch_pc.wrapping_add(1);
        let d = match self.table.lookup(code) {
            Some(d) => d,
            None => {
                self.halted = true;
                proof {
                    assert(self@ =~= step_spec(old(self)@));
                }
                return Err(EmuError::UnknownOpcode { code, pc: fetch_pc });
            },
        };
        proof {
            lemma_opcode_info_valid(code);
        }
        let pc1 = self.program_counter;
        let (op, _crossed) = resolve(d.mode, &self.bus, pc1, self.reg_x, self.reg_y);
        self.program_counter = pc1.wrapping_add((d.length - 1) as u16);
        match d.mnemonic {
            Mnemonic::Adc => self.adc(op),
            Mnemonic::And => self.and(op),
            Mnemonic::Asl => self.asl(op),
            Mnemonic::Bcc => {
                let off = self.bus.read(pc1);
                let taken = !self.status.carry;
                self.branch(off, taken);
            },
            Mnemonic::Bcs => {
                let off = self.bus.read(pc1);
                let taken = self.status.carry;
                self.branch(off, taken);
            },
            Mnemonic::Beq => {
                let off = self.bus.read(pc1);
                let taken = self.status.zero;
                self.branch(off, taken);
            },
            Mnemonic::Bit => self.bit(op),
            Mnemonic::Bmi => {
                let off = self.bus.read(pc1);
                let taken = self.status.negative;
                self.branch(off, taken);
            },
            Mnemonic::Bne => {
                let off = self.bus.read(pc1);
                let taken = !self.status.zero;
                self.branch(off, taken);
            },
            Mnemonic::Bpl => {
                let off = self.bus.read(pc1);
                let taken = !self.status.negative;
                self.branch(off, taken);
            },
            Mnemonic::Brk => self.brk(),
            Mnemonic::Bvc => {
                let off = self.bus.read(pc1);
                let taken = !self.status.overflow;
                self.branch(off, taken);
            },
            Mnemonic::Bvs => {
                let off = self.bus.read(pc1);
                let taken = self.status.overflow;
                self.branch(off, taken);
            },
            Mnemonic::Clc => self.status.carry = false,
            Mnemonic::Cld => self.status.decimal = false,
            Mnemonic::Cli => self.status.interrupt_disable = false,
            Mnemonic::Clv => self.status.overflow = false,
            Mnemonic::Cmp => {
                let reg = self.reg_a;
                self.compare(reg, op);
            },
            Mnemonic::Cpx => {
                let reg = self.reg_x;
                self.compare(reg, op);
            },
            Mnemonic::Cpy => {
                let reg = self.reg_y;
                self.compare(reg, op);
            },
            Mnemonic::Dec => self.dec(op),
            Mnemonic::Dex => {
                let r = self.reg_x.wrapping_sub(1);
                self.reg_x = r;
                self.set_zn(r);
            },
            Mnemonic::Dey => {
                let r = self.reg_y.wrapping_sub(1);
                self.reg_y = r;
                self.set_zn(r);
            },
            Mnemonic::Eor => self.eor(op),
            Mnemonic::Inc => self.inc(op),
            Mnemonic::Inx => {
                let r = self.reg_x.wrapping_add(1);
                self.reg_x = r;
                self.set_zn(r);
            },
            Mnemonic::Iny => {
                let r = self.reg_y.wrapping_add(1);
                self.reg_y = r;
                self.set_zn(r);
            },
            Mnemonic::Jmp => self.jmp(op),
            Mnemonic::Jsr => self.jsr(op),
            Mnemonic::Lda => self.lda(op),
            Mnemonic::Ldx => self.ldx(op),
            Mnemonic::Ldy => self.ldy(op),
            Mnemonic::Lsr => self.lsr(op),
            Mnemonic::Nop => {},
            Mnemonic::Ora => self.ora(op),
            Mnemonic::Pha => self.pha(),
            Mnemonic::Php => self.php(),
            Mnemonic::Pla => self.pla(),
            Mnemonic::Plp => self.plp(),
            Mnemonic::Rol => self.rol(op),
            Mnemonic::Ror => self.ror(op),
            Mnemonic::Rti => self.rti(),
            Mnemonic::Rts => self.rts(),
            Mnemonic::Sbc => self.sbc(op),
            Mnemonic::Sec => self.status.carry = true,
            Mnemonic::Sed => self.status.decimal = true,
            Mnemonic::Sei => self.status.interrupt_disable = true,
            Mnemonic::Sta => {
                let v = self.reg_a;
                self.write_operand(op, v);
            },
            Mnemonic::Stx => {
                let v = self.reg_x;
                self.write_operand(op, v);
            },
            Mnemonic::Sty => {
                let v = self.reg_y;
                self.write_operand(op, v);
            },
            Mnemonic::Tax => {
                let v = self.reg_a;
                self.reg_x = v;
                self.set_zn(v);
            },
            Mnemonic::Tay => {
                let v = self.reg_a;
                self.reg_y = v;
                self.set_zn(v);
            },
            Mnemonic::Tsx => {
                let v = self.stack_pointer;
                self.reg_x = v;
                self.set_zn(v);
            },
            Mnemonic::Txa => {
                let v = self.reg_x;
                self.reg_a = v;
                self.set_zn(v);
            },
            Mnemonic::Txs => {
                self.stack_pointer = self.reg_x;
            },
            Mnemonic::Tya => {
                let v = self.reg_y;
                self.reg_a = v;
                self.set_zn(v);
            },
        }
        Ok(())
    }

    /// Runs up to `max_steps` instructions, stopping early when the
    /// machine halts by executing a break instruction or when an unknown
    /// opcode stops it with an error. The final state is exactly
    /// [`run_spec`] of the budget; `Ok(n)` reports how many instructions
    /// retired. Free-run control belongs to the driver, which chooses the
    /// budget and may simply call again: the engine itself imposes no
    /// instruction budget of its own.
    pub fn run(&mut self, max_steps: u64) -> (r: Result<u64, EmuError>)
        requires
            old(self).wf(),
        ensures
            final(self).wf(),
            final(self)@ == run_spec(old(self)@, max_steps as nat),
            r matches Ok(n) ==> n <= max_steps && (final(self)@.halted || n == max_steps),
            r is Ok ==> forall|k: nat|
                k < max_steps ==> (#[trigger] run_spec(old(self)@, k)).halted || decode_ok(
                    run_spec(old(self)@, k),
                ),
            r matches Err(e) ==> final(self)@.halted && exists|k: nat|
                {
                    &&& k < max_steps
                    &&& !(#[trigger] run_spec(old(self)@, k)).halted
                    &&& !decode_ok(run_spec(old(self)@, k))
                    &&& e == (EmuError::UnknownOpcode {
                        code: run_spec(old(self)@, k).mem[run_spec(old(self)@, k).pc as int],
                        pc: run_spec(old(self)@, k).pc,
                    })
                },
    {
        let mut n: u64 = 0;
        while !self.halted && n < max_steps
            invariant
                self.wf(),
                n <= max_steps,
                self@ == run_spec(old(self)@, n as nat),
                forall|k: nat|
                    k < n ==> (#[trigger] run_spec(old(self)@, k)).halted || decode_ok(
                        run_spec(old(self)@, k),
                    ),
            decreases max_steps - n,
        {
            proof {
                lemma_run_spec_step(old(self)@, n as nat);
            }
            match self.step() {
                Ok(()) => {},
                Err(e) => {
                    proof {
                        lemma_run_spec_add(old(self)@, (n + 1) as nat, (max_steps - n - 1) as nat);
                    }
                    return Err(e);
                },
            }
            n = n + 1;
        }
        proof {
            if n < max_steps {
                lemma_run_spec_add(old(self)@, n as nat, (max_steps - n) as nat);
            }
            assert forall|k: nat|
                k < max_steps implies (#[trigger] run_spec(old(self)@, k)).halted || decode_ok(
                run_spec(old(self)@, k),
            ) by {
                if k >= n {
                    lemma_run_spec_add(old(self)@, n as nat, (k - n) as nat);
                }
            }
        }
        Ok(n)
    }

    /// Runs as [`run`](Self::run) does, but notifies `sink` once per
    /// retired instruction; the loop also stops, with `Ok`, when the sink
    /// requests termination. `Ok(0)` comes exactly from a machine that was
    /// already halted or a budget of zero: on a startable machine with a
    /// positive budget, at least one instruction retires before the sink
    /// is first consulted.
    pub fn run_with_callback<S: InstructionSink>(&mut self, sink: &mut S, max_steps: u64) -> (r:
        Result<u64, EmuError>)
        requires
            old(self).wf(),
        ensures
            final(self).wf(),
            r matches Ok(n) ==> n <= max_steps && final(self)@ == run_spec(old(self)@, n as nat),
            old(self)@.halted || max_steps == 0 ==> r == Ok::<u64, EmuError>(0),
            r matches Ok(n) && n == 0 ==> old(self)@.halted || max_steps == 0,
            r matches Err(e) ==> final(self)@.halted && exists|k: nat|
                {
                    &&& k < max_steps
                    &&& final(self)@ == run_spec(old(self)@, k + 1)
                    &&& !(#[trigger] run_spec(old(self)@, k)).halted
                    &&& !decode_ok(run_spec(old(self)@, k))
                    &&& e == (EmuError::UnknownOpcode {
                        code: run_spec(old(self)@, k).mem[run_spec(old(self)@, k).pc as int],
                        pc: run_spec(old(self)@, k).pc,
                    })
                },
    {
        let mut n: u64 = 0;
        while !self.halted && n < max_steps
            invariant
                self.wf(),
                n <= max_steps,
                self@ == run_spec(old(self)@, n as nat),
                old(self)@.halted || max_steps == 0 ==> n == 0,
            decreases max_steps - n,
        {
            proof {
                lemma_run_spec_step(old(self)@, n as nat);
            }
            match self.step() {
                Ok(()) => {},
                Err(e) => {
                    return Err(e);
                },
            }
            n = n + 1;
            if !sink.instruction_retired(self) {
                return Ok(n);
            }
        }
        Ok(n)
    }
}

} // verus!
