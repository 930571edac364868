//! Addressing-mode resolution: pure functions that, given the program
//! counter (pointing just past the opcode byte) and the bus contents,
//! compute an instruction's effective operand and record whether a page
//! boundary was crossed.

use vstd::prelude::*;

use crate::bus::{word_at, zp_word_at, Bus, MEM_SIZE};

verus! {

/// How an instruction finds its operand.
#[derive(Clone, Copy, PartialEq, Eq, Structural, Debug)]
pub enum AddressingMode {
    Immediate,
    ZeroPage,
    ZeroPageX,
    ZeroPageY,
    Absolute,
    AbsoluteX,
    AbsoluteY,
    /// Used only by the unconditional jump's indirect form.
    Indirect,
    /// Zero-page-indirect, X-indexed before the dereference.
    IndexedIndirect,
    /// Zero-page-indirect, Y-indexed after the dereference.
    IndirectIndexed,
    /// No operand in memory: the instruction acts on a register or flag
    /// directly, or (for a branch) reads its own offset byte.
    Implied,
}

/// A resolved operand: none, the operand byte itself, or a memory address.
#[derive(Clone, Copy, PartialEq, Eq, Structural, Debug)]
pub enum Operand {
    Implied,
    Immediate(u8),
    Memory(u16),
}

/// The page (high byte) of an address, for page-crossing accounting.
pub open spec fn page_of(addr: u16) -> u16 {
    addr / 0x100
}

/// The operand that `mode` resolves to with the program counter at `pc`
/// (just past the opcode byte), together with whether a page boundary was
/// crossed by index addition.
pub open spec fn resolve_spec(mode: AddressingMode, mem: Seq<u8>, pc: u16, x: u8, y: u8) -> (
    Operand,
    bool,
) {
    match mode {
        AddressingMode::Immediate => (Operand::Immediate(mem[pc as int]), false),
        AddressingMode::ZeroPage => (Operand::Memory(mem[pc as int] as u16), false),
        AddressingMode::ZeroPageX => (
            Operand::Memory(mem[pc as int].wrapping_add(x) as u16),
            false,
        ),
        AddressingMode::ZeroPageY => (
            Operand::Memory(mem[pc as int].wrapping_add(y) as u16),
            false,
        ),
        AddressingMode::Absolute => (Operand::Memory(word_at(mem, pc)), false),
        AddressingMode::AbsoluteX => {
            let base = word_at(mem, pc);
            let addr = base.wrapping_add(x as u16);
            (Operand::Memory(addr), page_of(base) != page_of(addr))
        },
        AddressingMode::AbsoluteY => {
            let base = word_at(mem, pc);
            let addr = base.wrapping_add(y as u16);
            (Operand::Memory(addr), page_of(base) != page_of(addr))
        },
        AddressingMode::Indirect => (Operand::Memory(indirect_target(mem, pc)), false),
        AddressingMode::IndexedIndirect => {
            let ptr = mem[pc as int].wrapping_add(x);
            (Operand::Memory(zp_word_at(mem, ptr)), false)
        },
        AddressingMode::IndirectIndexed => {
            let base = zp_word_at(mem, mem[pc as int]);
            let addr = base.wrapping_add(y as u16);
            (Operand::Memory(addr), page_of(base) != page_of(addr))
        },
        AddressingMode::Implied => (Operand::Implied, false),
    }
}

/// The target of an indirect jump whose operand word is at `pc`. Reproduces
/// the documented hardware defect: when the low byte of the pointer is
/// 0xFF, the high byte of the target is fetched from offset 0 of the same
/// page rather than from the next page.
pub open spec fn indirect_target(mem: Seq<u8>, pc: u16) -> u16 {
    let ptr = word_at(mem, pc);
    let lo = mem[ptr as int];
    let hi = if ptr % 0x100 == 0xFF {
        mem[(ptr - 0xFF) as int]
    } else {
        mem[(ptr + 1) as int]
    };
    (lo + hi * 0x100) as u16
}

/// Resolves `mode` against the bus with the program counter at `pc` (just
/// past the opcode byte); returns the operand and whether a page boundary
/// was crossed.
pub fn resolve(mode: AddressingMode, bus: &Bus, pc: u16, x: u8, y: u8) -> (r: (Operand, bool))
    requires
        bus.wf(),
    ensures
        r == resolve_spec(mode, bus@, pc, x, y),
{
    match mode {
        AddressingMode::Immediate => (Operand::Immediate(bus.read(pc)), false),
        AddressingMode::ZeroPage => (Operand::Memory(bus.read(pc) as u16), false),
        AddressingMode::ZeroPageX => (Operand::Memory(bus.read(pc).wrapping_add(x) as u16), false),
        AddressingMode::ZeroPageY => (Operand::Memory(bus.read(pc).wrapping_add(y) as u16), false),
        AddressingMode::Absolute => (Operand::Memory(bus.read_word(pc)), false),
        AddressingMode::AbsoluteX => {
            let base = bus.read_word(pc);
            let addr = base.wrapping_add(x as u16);
            (Operand::Memory(addr), base / 0x100 != addr / 0x100)
        },
        AddressingMode::AbsoluteY => {
            let base = bus.read_word(pc);
            let addr = base.wrapping_add(y as u16);
            (Operand::Memory(addr), base / 0x100 != addr / 0x100)
        },
        AddressingMode::Indirect => {
            let ptr = bus.read_word(pc);
            let lo = bus.read(ptr);
            let hi = if ptr % 0x100 == 0xFF {
                bus.read(ptr - 0xFF)
            } else {
                bus.read(ptr + 1)
            };
            (Operand::Memory((lo as u16) + (hi as u16) * 0x100), false)
        },
        AddressingMode::IndexedIndirect => {
            let ptr = bus.read(pc).wrapping_add(x);
            let lo = bus.read(ptr as u16);
            let hi = bus.read(ptr.wrapping_add(1) as u16);
            (Operand::Memory((lo as u16) + (hi as u16) * 0x100), false)
        },
        AddressingMode::IndirectIndexed => {
            let zp = bus.read(pc);
            let lo = bus.read(zp as u16);
            let hi = bus.read(zp.wrapping_add(1) as u16);
            let base = (lo as u16) + (hi as u16) * 0x100;
            let addr = base.wrapping_add(y as u16);
            (Operand::Memory(addr), base / 0x100 != addr / 0x100)
        },
        AddressingMode::Implied => (Operand::Implied, false),
    }
}

} // verus!
