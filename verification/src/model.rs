//! The mathematical model of the processor: a ghost state record and a pure
//! transition function giving the exact effect of every documented
//! instruction. The execution engine's contracts are stated against this
//! model.

use vstd::prelude::*;

use crate::addressing::{resolve_spec, Operand};
use crate::bus::word_at;
use crate::flags::Flags;
use crate::opcodes::{opcode_info, Mnemonic, OpcodeDescriptor};

verus! {

/// The complete observable state of the processor and its bus.
#[verifier::ext_equal]
pub struct CpuView {
    pub a: u8,
    pub x: u8,
    pub y: u8,
    pub sp: u8,
    pub pc: u16,
    pub flags: Flags,
    pub mem: Seq<u8>,
    pub halted: bool,
}

impl CpuView {
    pub open spec fn wf(self) -> bool {
        self.mem.len() == 0x10000
    }
}

/// `f` with Zero and Negative set from `v`: Zero iff `v` is zero, Negative
/// iff bit 7 of `v` is set.
pub open spec fn with_zn(f: Flags, v: u8) -> Flags {
    Flags { zero: v == 0, negative: v >= 0x80, ..f }
}

/// The byte an operand designates: an immediate literal or the memory cell
/// it addresses. A register-only operand designates no byte.
pub open spec fn operand_value(mem: Seq<u8>, op: Operand) -> u8 {
    match op {
        Operand::Implied => 0,
        Operand::Immediate(v) => v,
        Operand::Memory(a) => mem[a as int],
    }
}

/// `s` with `v` stored at the cell `op` addresses; unchanged when `op`
/// addresses no memory.
pub open spec fn written(s: CpuView, op: Operand, v: u8) -> CpuView {
    match op {
        Operand::Memory(a) => CpuView { mem: s.mem.update(a as int, v), ..s },
        _ => s,
    }
}

// --- load, store, transfer ---

pub open spec fn lda_spec(s: CpuView, op: Operand) -> CpuView {
    let v = operand_value(s.mem, op);
    CpuView { a: v, flags: with_zn(s.flags, v), ..s }
}

pub open spec fn ldx_spec(s: CpuView, op: Operand) -> CpuView {
    let v = operand_value(s.mem, op);
    CpuView { x: v, flags: with_zn(s.flags, v), ..s }
}

pub open spec fn ldy_spec(s: CpuView, op: Operand) -> CpuView {
    let v = operand_value(s.mem, op);
    CpuView { y: v, flags: with_zn(s.flags, v), ..s }
}

pub open spec fn sta_spec(s: CpuView, op: Operand) -> CpuView {
    written(s, op, s.a)
}

pub open spec fn stx_spec(s: CpuView, op: Operand) -> CpuView {
    written(s, op, s.x)
}

pub open spec fn sty_spec(s: CpuView, op: Operand) -> CpuView {
    written(s, op, s.y)
}

pub open spec fn tax_spec(s: CpuView) -> CpuView {
    CpuView { x: s.a, flags: with_zn(s.flags, s.a), ..s }
}

pub open spec fn tay_spec(s: CpuView) -> CpuView {
    CpuView { y: s.a, flags: with_zn(s.flags, s.a), ..s }
}

pub open spec fn tsx_spec(s: CpuView) -> CpuView {
    CpuView { x: s.sp, flags: with_zn(s.flags, s.sp), ..s }
}

pub open spec fn txa_spec(s: CpuView) -> CpuView {
    CpuView { a: s.x, flags: with_zn(s.flags, s.x), ..s }
}

/// Transfer X to the stack pointer; the one transfer that sets no flags.
pub open spec fn txs_spec(s: CpuView) -> CpuView {
    CpuView { sp: s.x, ..s }
}

pub open spec fn tya_spec(s: CpuView) -> CpuView {
    CpuView { a: s.y, flags: with_zn(s.flags, s.y), ..s }
}

// --- arithmetic ---

/// Add with carry: Carry from unsigned overflow of the 9-bit sum, Overflow
/// from signed overflow (the addends agree in sign and the result does
/// not), Zero and Negative from the result.
pub open spec fn adc_spec(s: CpuView, op: Operand) -> CpuView {
    let v = operand_value(s.mem, op);
    let sum = s.a + v + (if s.flags.carry {
        1int
    } else {
        0int
    });
    let r = (sum % 0x100) as u8;
    CpuView {
        a: r,
        flags: Flags {
            carry: sum > 0xFF,
            overflow: ((s.a >= 0x80) == (v >= 0x80)) && ((r >= 0x80) != (s.a >= 0x80)),
            ..with_zn(s.flags, r)
        },
        ..s
    }
}

/// Subtract with borrow (the complement of Carry): Carry set when no
/// borrow was needed, Overflow from signed overflow, Zero and Negative
/// from the result.
pub open spec fn sbc_spec(s: CpuView, op: Operand) -> CpuView {
    let v = operand_value(s.mem, op);
    let borrow = if s.flags.carry {
        0int
    } else {
        1int
    };
    let r = ((s.a + 0x100 - v - borrow) % 0x100) as u8;
    CpuView {
        a: r,
        flags: Flags {
            carry: s.a >= v + borrow,
            overflow: ((s.a >= 0x80) != (v >= 0x80)) && ((r >= 0x80) != (s.a >= 0x80)),
            ..with_zn(s.flags, r)
        },
        ..s
    }
}

/// Compare: an internal subtraction `reg - v` setting Carry (no borrow),
/// Zero (equal) and Negative (bit 7 of the difference), storing nothing.
pub open spec fn compare_spec(s: CpuView, reg: u8, op: Operand) -> CpuView {
    let v = operand_value(s.mem, op);
    let d = ((reg + 0x100 - v) % 0x100) as u8;
    CpuView {
        flags: Flags { carry: reg >= v, zero: reg == v, negative: d >= 0x80, ..s.flags },
        ..s
    }
}

// --- logic ---

pub open spec fn and_spec(s: CpuView, op: Operand) -> CpuView {
    let r = s.a & operand_value(s.mem, op);
    CpuView { a: r, flags: with_zn(s.flags, r), ..s }
}

pub open spec fn ora_spec(s: CpuView, op: Operand) -> CpuView {
    let r = s.a | operand_value(s.mem, op);
    CpuView { a: r, flags: with_zn(s.flags, r), ..s }
}

pub open spec fn eor_spec(s: CpuView, op: Operand) -> CpuView {
    let r = s.a ^ operand_value(s.mem, op);
    CpuView { a: r, flags: with_zn(s.flags, r), ..s }
}

/// Bit test: Zero from `A AND v`, Negative from bit 7 of `v`, Overflow
/// from bit 6 of `v`; no register changes.
pub open spec fn bit_spec(s: CpuView, op: Operand) -> CpuView {
    let v = operand_value(s.mem, op);
    CpuView {
        flags: Flags {
            zero: s.a & v == 0,
            negative: v >= 0x80,
            overflow: v / 0x40 % 2 == 1,
            ..s.flags
        },
        ..s
    }
}

// --- shifts and rotates ---

/// The shifted byte and the bit shifted out, for each of the four
/// shift/rotate forms.
pub open spec fn asl_value(v: u8) -> (u8, bool) {
    (((v * 2) % 0x100) as u8, v >= 0x80)
}

pub open spec fn lsr_value(v: u8) -> (u8, bool) {
    ((v / 2) as u8, v % 2 == 1)
}

pub open spec fn rol_value(v: u8, carry: bool) -> (u8, bool) {
    ((((v * 2) + (if carry {
        1int
    } else {
        0int
    })) % 0x100) as u8, v >= 0x80)
}

pub open spec fn ror_value(v: u8, carry: bool) -> (u8, bool) {
    ((v / 2 + (if carry {
        0x80int
    } else {
        0int
    })) as u8, v % 2 == 1)
}

/// A shift or rotate applied in place: on the accumulator for the
/// register form, on the addressed cell otherwise. Carry takes the bit
/// shifted out; Zero and Negative follow the shifted result.
pub open spec fn shifted(s: CpuView, op: Operand, rc: (u8, bool)) -> CpuView {
    let s1 = match op {
        Operand::Memory(_) => written(s, op, rc.0),
        _ => CpuView { a: rc.0, ..s },
    };
    CpuView { flags: Flags { carry: rc.1, ..with_zn(s.flags, rc.0) }, ..s1 }
}

pub open spec fn asl_spec(s: CpuView, op: Operand) -> CpuView {
    let v = match op {
        Operand::Memory(_) => operand_value(s.mem, op),
        _ => s.a,
    };
    shifted(s, op, asl_value(v))
}

pub open spec fn lsr_spec(s: CpuView, op: Operand) -> CpuView {
    let v = match op {
        Operand::Memory(_) => operand_value(s.mem, op),
        _ => s.a,
    };
    shifted(s, op, lsr_value(v))
}

pub open spec fn rol_spec(s: CpuView, op: Operand) -> CpuView {
    let v = match op {
        Operand::Memory(_) => operand_value(s.mem, op),
        _ => s.a,
    };
    shifted(s, op, rol_value(v, s.flags.carry))
}

pub open spec fn ror_spec(s: CpuView, op: Operand) -> CpuView {
    let v = match op {
        Operand::Memory(_) => operand_value(s.mem, op),
        _ => s.a,
    };
    shifted(s, op, ror_value(v, s.flags.carry))
}

// --- increment / decrement ---

pub open spec fn inc_spec(s: CpuView, op: Operand) -> CpuView {
    let r = operand_value(s.mem, op).wrapping_add(1);
    CpuView { flags: with_zn(s.flags, r), ..written(s, op, r) }
}

pub open spec fn dec_spec(s: CpuView, op: Operand) -> CpuView {
    let r = operand_value(s.mem, op).wrapping_sub(1);
    CpuView { flags: with_zn(s.flags, r), ..written(s, op, r) }
}

pub open spec fn inx_spec(s: CpuView) -> CpuView {
    let r = s.x.wrapping_add(1);
    CpuView { x: r, flags: with_zn(s.flags, r), ..s }
}

pub open spec fn iny_spec(s: CpuView) -> CpuView {
    let r = s.y.wrapping_add(1);
    CpuView { y: r, flags: with_zn(s.flags, r), ..s }
}

pub open spec fn dex_spec(s: CpuView) -> CpuView {
    let r = s.x.wrapping_sub(1);
    CpuView { x: r, flags: with_zn(s.flags, r), ..s }
}

pub open spec fn dey_spec(s: CpuView) -> CpuView {
    let r = s.y.wrapping_sub(1);
    CpuView { y: r, flags: with_zn(s.flags, r), ..s }
}

// --- stack ---

/// Push: the byte goes to page 1 at the stack pointer, which then steps
/// down, wrapping 0x00 to 0xFF with no bank crossing.
pub open spec fn push_spec(s: CpuView, v: u8) -> CpuView {
    CpuView {
        mem: s.mem.update(0x100 + s.sp as int, v),
        sp: s.sp.wrapping_sub(1),
        ..s
    }
}

/// Pull: the stack pointer steps up, wrapping 0xFF to 0x00, and the byte
/// is read from page 1 at the new stack pointer.
pub open spec fn pull_spec(s: CpuView) -> (CpuView, u8) {
    let sp2 = s.sp.wrapping_add(1);
    (CpuView { sp: sp2, ..s }, s.mem[0x100 + sp2 as int])
}

/// Push a 16-bit word: high byte first, then low byte.
pub open spec fn push_word_spec(s: CpuView, w: u16) -> CpuView {
    push_spec(push_spec(s, (w / 0x100) as u8), (w % 0x100) as u8)
}

/// Pull a 16-bit word: low byte first, then high byte.
pub open spec fn pull_word_spec(s: CpuView) -> (CpuView, u16) {
    let (s1, lo) = pull_spec(s);
    let (s2, hi) = pull_spec(s1);
    (s2, (lo + hi * 0x100) as u16)
}

pub open spec fn pha_spec(s: CpuView) -> CpuView {
    push_spec(s, s.a)
}

/// Push a copy of the flags; Break and Break2 are forced set in the
/// pushed copy, the live flags are untouched.
pub open spec fn php_spec(s: CpuView) -> CpuView {
    push_spec(s, (Flags { brk: true, break2: true, ..s.flags }).to_byte_spec())
}

pub open spec fn pla_spec(s: CpuView) -> CpuView {
    let (s1, v) = pull_spec(s);
    CpuView { a: v, flags: with_zn(s1.flags, v), ..s1 }
}

/// Pull the flags; the Break bit of the pulled byte is discarded and
/// Break2 is forced set.
pub open spec fn plp_spec(s: CpuView) -> CpuView {
    let (s1, v) = pull_spec(s);
    CpuView { flags: Flags { brk: false, break2: true, ..Flags::from_byte_spec(v) }, ..s1 }
}

// --- control transfer ---

/// Where a taken branch lands: `base` (the address just past the branch)
/// plus the sign-extended 8-bit offset, wrapping at 16 bits.
pub open spec fn branch_target(base: u16, off: u8) -> u16 {
    if off < 0x80 {
        base.wrapping_add(off as u16)
    } else {
        base.wrapping_add(off as u16).wrapping_sub(0x100)
    }
}

/// Whether the flag a branch mnemonic tests matches its condition.
pub open spec fn branch_taken(m: Mnemonic, f: Flags) -> bool {
    match m {
        Mnemonic::Bcc => !f.carry,
        Mnemonic::Bcs => f.carry,
        Mnemonic::Beq => f.zero,
        Mnemonic::Bne => !f.zero,
        Mnemonic::Bmi => f.negative,
        Mnemonic::Bpl => !f.negative,
        Mnemonic::Bvc => !f.overflow,
        Mnemonic::Bvs => f.overflow,
        _ => false,
    }
}

/// A branch with `s` already advanced past the 2-byte encoding: taken, it
/// adds the signed offset; not taken, it leaves the program counter there.
pub open spec fn branch_spec(s: CpuView, off: u8, taken: bool) -> CpuView {
    if taken {
        CpuView { pc: branch_target(s.pc, off), ..s }
    } else {
        s
    }
}

pub open spec fn jmp_spec(s: CpuView, op: Operand) -> CpuView {
    match op {
        Operand::Memory(target) => CpuView { pc: target, ..s },
        _ => s,
    }
}

/// Subroutine call with `s` already advanced past the 3-byte encoding:
/// pushes the high then low byte of the return address minus one, then
/// jumps to the target.
pub open spec fn jsr_spec(s: CpuView, op: Operand) -> CpuView {
    match op {
        Operand::Memory(target) => CpuView {
            pc: target,
            ..push_word_spec(s, s.pc.wrapping_sub(1))
        },
        _ => s,
    }
}

/// Return from subroutine: pops two bytes and resumes at the popped
/// address plus one.
pub open spec fn rts_spec(s: CpuView) -> CpuView {
    let (s1, w) = pull_word_spec(s);
    CpuView { pc: w.wrapping_add(1), ..s1 }
}

/// Return from interrupt: pulls the flags (Break discarded, Break2 forced
/// set), then the program counter, not incremented.
pub open spec fn rti_spec(s: CpuView) -> CpuView {
    let (s1, fb) = pull_spec(s);
    let (s2, w) = pull_word_spec(s1);
    CpuView {
        flags: Flags { brk: false, break2: true, ..Flags::from_byte_spec(fb) },
        pc: w,
        ..s2
    }
}

/// Break, with `s` already advanced past the opcode byte: pushes the
/// program counter and a copy of the flags with Break (and Break2) set,
/// sets InterruptDisable, transfers through the interrupt vector at
/// 0xFFFE, and enters the halted state.
pub open spec fn brk_spec(s: CpuView) -> CpuView {
    let s1 = push_word_spec(s, s.pc);
    let s2 = push_spec(s1, (Flags { brk: true, break2: true, ..s.flags }).to_byte_spec());
    CpuView {
        flags: Flags { interrupt_disable: true, ..s.flags },
        pc: word_at(s2.mem, 0xFFFE),
        halted: true,
        ..s2
    }
}

// --- the step transition ---

/// The effect of one decoded instruction: the opcode byte at `s.pc` has
/// descriptor `d`. The operand is resolved with the program counter just
/// past the opcode; the program counter advances over the whole encoding
/// before the semantic action runs.
pub open spec fn step_known(s: CpuView, d: OpcodeDescriptor) -> CpuView {
    let pc1 = s.pc.wrapping_add(1);
    let resolved = resolve_spec(d.mode, s.mem, pc1, s.x, s.y);
    let op = resolved.0;
    let pc_next = pc1.wrapping_add((d.length - 1) as u16);
    let s0 = CpuView { pc: pc_next, ..s };
    match d.mnemonic {
        Mnemonic::Adc => adc_spec(s0, op),
        Mnemonic::And => and_spec(s0, op),
        Mnemonic::Asl => asl_spec(s0, op),
        Mnemonic::Bcc => branch_spec(s0, s.mem[pc1 as int], branch_taken(d.mnemonic, s.flags)),
        Mnemonic::Bcs => branch_spec(s0, s.mem[pc1 as int], branch_taken(d.mnemonic, s.flags)),
        Mnemonic::Beq => branch_spec(s0, s.mem[pc1 as int], branch_taken(d.mnemonic, s.flags)),
        Mnemonic::Bit => bit_spec(s0, op),
        Mnemonic::Bmi => branch_spec(s0, s.mem[pc1 as int], branch_taken(d.mnemonic, s.flags)),
        Mnemonic::Bne => branch_spec(s0, s.mem[pc1 as int], branch_taken(d.mnemonic, s.flags)),
        Mnemonic::Bpl => branch_spec(s0, s.mem[pc1 as int], branch_taken(d.mnemonic, s.flags)),
        Mnemonic::Brk => brk_spec(s0),
        Mnemonic::Bvc => branch_spec(s0, s.mem[pc1 as int], branch_taken(d.mnemonic, s.flags)),
        Mnemonic::Bvs => branch_spec(s0, s.mem[pc1 as int], branch_taken(d.mnemonic, s.flags)),
        Mnemonic::Clc => CpuView { flags: Flags { carry: false, ..s0.flags }, ..s0 },
        Mnemonic::Cld => CpuView { flags: Flags { decimal: false, ..s0.flags }, ..s0 },
        Mnemonic::Cli => CpuView { flags: Flags { interrupt_disable: false, ..s0.flags }, ..s0 },
        Mnemonic::Clv => CpuView { flags: Flags { overflow: false, ..s0.flags }, ..s0 },
        Mnemonic::Cmp => compare_spec(s0, s0.a, op),
        Mnemonic::Cpx => compare_spec(s0, s0.x, op),
        Mnemonic::Cpy => compare_spec(s0, s0.y, op),
        Mnemonic::Dec => dec_spec(s0, op),
        Mnemonic::Dex => dex_spec(s0),
        Mnemonic::Dey => dey_spec(s0),
        Mnemonic::Eor => eor_spec(s0, op),
        Mnemonic::Inc => inc_spec(s0, op),
        Mnemonic::Inx => inx_spec(s0),
        Mnemonic::Iny => iny_spec(s0),
        Mnemonic::Jmp => jmp_spec(s0, op),
        Mnemonic::Jsr => jsr_spec(s0, op),
        Mnemonic::Lda => lda_spec(s0, op),
        Mnemonic::Ldx => ldx_spec(s0, op),
        Mnemonic::Ldy => ldy_spec(s0, op),
        Mnemonic::Lsr => lsr_spec(s0, op),
        Mnemonic::Nop => s0,
        Mnemonic::Ora => ora_spec(s0, op),
        Mnemonic::Pha => pha_spec(s0),
        Mnemonic::Php => php_spec(s0),
        Mnemonic::Pla => pla_spec(s0),
        Mnemonic::Plp => plp_spec(s0),
        Mnemonic::Rol => rol_spec(s0, op),
        Mnemonic::Ror => ror_spec(s0, op),
        Mnemonic::Rti => rti_spec(s0),
        Mnemonic::Rts => rts_spec(s0),
        Mnemonic::Sbc => sbc_spec(s0, op),
        Mnemonic::Sec => CpuView { flags: Flags { carry: true, ..s0.flags }, ..s0 },
        Mnemonic::Sed => CpuView { flags: Flags { decimal: true, ..s0.flags }, ..s0 },
        Mnemonic::Sei => CpuView { flags: Flags { interrupt_disable: true, ..s0.flags }, ..s0 },
        Mnemonic::Sta => sta_spec(s0, op),
        Mnemonic::Stx => stx_spec(s0, op),
        Mnemonic::Sty => sty_spec(s0, op),
        Mnemonic::Tax => tax_spec(s0),
        Mnemonic::Tay => tay_spec(s0),
        Mnemonic::Tsx => tsx_spec(s0),
        Mnemonic::Txa => txa_spec(s0),
        Mnemonic::Txs => txs_spec(s0),
        Mnemonic::Tya => tya_spec(s0),
    }
}

/// Whether the byte at the program counter decodes to a documented
/// instruction.
pub open spec fn decode_ok(s: CpuView) -> bool {
    opcode_info(s.mem[s.pc as int]) is Some
}

/// One fetch-decode-execute step. An unknown opcode is fatal: the machine
/// halts with the program counter advanced past the offending byte and
/// nothing else changed.
pub open spec fn step_spec(s: CpuView) -> CpuView {
    match opcode_info(s.mem[s.pc as int]) {
        Option::Some(d) => step_known(s, d),
        Option::None => CpuView { pc: s.pc.wrapping_add(1), halted: true, ..s },
    }
}

/// The state after up to `n` steps: stepping stops early once the machine
/// is halted, and a halted machine never changes again.
pub open spec fn run_spec(s: CpuView, n: nat) -> CpuView
    decreases n,
{
    if n == 0 || s.halted {
        s
    } else {
        run_spec(step_spec(s), (n - 1) as nat)
    }
}

/// While the machine has not halted, one more step of budget applies one
/// more transition.
pub proof fn lemma_run_spec_step(s: CpuView, n: nat)
    ensures
        !run_spec(s, n).halted ==> run_spec(s, n + 1) == step_spec(run_spec(s, n)),
    decreases n,
{
    reveal_with_fuel(run_spec, 3);
    if n > 0 && !s.halted {
        lemma_run_spec_step(step_spec(s), (n - 1) as nat);
    }
}

/// Step budgets compose: running `m + n` steps is running `m`, then `n`.
pub proof fn lemma_run_spec_add(s: CpuView, m: nat, n: nat)
    ensures
        run_spec(s, m + n) == run_spec(run_spec(s, m), n),
    decreases m,
{
    if !s.halted && m > 0 {
        lemma_run_spec_add(step_spec(s), (m - 1) as nat, n);
    }
}

} // verus!
