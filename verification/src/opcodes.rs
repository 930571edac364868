//! The opcode table: an immutable registry mapping each instruction byte of
//! the documented 6502 instruction set to its mnemonic, encoded length,
//! base cycle cost, and addressing mode. Built once, read-only thereafter.

use vstd::prelude::*;

use crate::addressing::AddressingMode;

verus! {

/// Mnemonic of a documented 6502 instruction.
#[derive(Clone, Copy, PartialEq, Eq, Structural, Debug)]
pub enum Mnemonic {
    Adc,
    And,
    Asl,
    Bcc,
    Bcs,
    Beq,
    Bit,
    Bmi,
    Bne,
    Bpl,
    Brk,
    Bvc,
    Bvs,
    Clc,
    Cld,
    Cli,
    Clv,
    Cmp,
    Cpx,
    Cpy,
    Dec,
    Dex,
    Dey,
    Eor,
    Inc,
    Inx,
    Iny,
    Jmp,
    Jsr,
    Lda,
    Ldx,
    Ldy,
    Lsr,
    Nop,
    Ora,
    Pha,
    Php,
    Pla,
    Plp,
    Rol,
    Ror,
    Rti,
    Rts,
    Sbc,
    Sec,
    Sed,
    Sei,
    Sta,
    Stx,
    Sty,
    Tax,
    Tay,
    Tsx,
    Txa,
    Txs,
    Tya,
}

/// Immutable metadata for one instruction byte.
#[derive(Clone, Copy, PartialEq, Eq, Structural, Debug)]
pub struct OpcodeDescriptor {
    pub code: u8,
    pub mnemonic: Mnemonic,
    /// Encoded length in bytes, opcode byte included: 1 to 3.
    pub length: u8,
    /// Base cycle cost, not counting page-crossing or branch penalties.
    pub base_cycles: u8,
    pub mode: AddressingMode,
}

/// The descriptor of `code`, or `None` for any byte outside the documented
/// instruction set.
#[verifier::opaque]
pub open spec fn opcode_info(code: u8) -> Option<OpcodeDescriptor> {
    if code == 0x00 {
        Some(OpcodeDescriptor { code: 0x00, mnemonic: Mnemonic::Brk, length: 1, base_cycles: 7, mode: AddressingMode::Implied })
    } else if code == 0x01 {
        Some(OpcodeDescriptor { code: 0x01, mnemonic: Mnemonic::Ora, length: 2, base_cycles: 6, mode: AddressingMode::IndexedIndirect })
    } else if code == 0x05 {
        Some(OpcodeDescriptor { code: 0x05, mnemonic: Mnemonic::Ora, length: 2, base_cycles: 3, mode: AddressingMode::ZeroPage })
    } else if code == 0x06 {
        Some(OpcodeDescriptor { code: 0x06, mnemonic: Mnemonic::Asl, length: 2, base_cycles: 5, mode: AddressingMode::ZeroPage })
    } else if code == 0x08 {
        Some(OpcodeDescriptor { code: 0x08, mnemonic: Mnemonic::Php, length: 1, base_cycles: 3, mode: AddressingMode::Implied })
    } else if code == 0x09 {
        Some(OpcodeDescriptor { code: 0x09, mnemonic: Mnemonic::Ora, length: 2, base_cycles: 2, mode: AddressingMode::Immediate })
    } else if code == 0x0A {
        Some(OpcodeDescriptor { code: 0x0A, mnemonic: Mnemonic::Asl, length: 1, base_cycles: 2, mode: AddressingMode::Implied })
    } else if code == 0x0D {
        Some(OpcodeDescriptor { code: 0x0D, mnemonic: Mnemonic::Ora, length: 3, base_cycles: 4, mode: AddressingMode::Absolute })
    } else if code == 0x0E {
        Some(OpcodeDescriptor { code: 0x0E, mnemonic: Mnemonic::Asl, length: 3, base_cycles: 6, mode: AddressingMode::Absolute })
    } else if code == 0x10 {
        Some(OpcodeDescriptor { code: 0x10, mnemonic: Mnemonic::Bpl, length: 2, base_cycles: 2, mode: AddressingMode::Implied })
    } else if code == 0x11 {
        Some(OpcodeDescriptor { code: 0x11, mnemonic: Mnemonic::Ora, length: 2, base_cycles: 5, mode: AddressingMode::IndirectIndexed })
    } else if code == 0x15 {
        Some(OpcodeDescriptor { code: 0x15, mnemonic: Mnemonic::Ora, length: 2, base_cycles: 4, mode: AddressingMode::ZeroPageX })
    } else if code == 0x16 {
        Some(OpcodeDescriptor { code: 0x16, mnemonic: Mnemonic::Asl, length: 2, base_cycles: 6, mode: AddressingMode::ZeroPageX })
    } else if code == 0x18 {
        Some(OpcodeDescriptor { code: 0x18, mnemonic: Mnemonic::Clc, length: 1, base_cycles: 2, mode: AddressingMode::Implied })
    } else if code == 0x19 {
        Some(OpcodeDescriptor { code: 0x19, mnemonic: Mnemonic::Ora, length: 3, base_cycles: 4, mode: AddressingMode::AbsoluteY })
    } else if code == 0x1D {
        Some(OpcodeDescriptor { code: 0x1D, mnemonic: Mnemonic::Ora, length: 3, base_cycles: 4, mode: AddressingMode::AbsoluteX })
    } else if code == 0x1E {
        Some(OpcodeDescriptor { code: 0x1E, mnemonic: Mnemonic::Asl, length: 3, base_cycles: 7, mode: AddressingMode::AbsoluteX })
    } else if code == 0x20 {
        Some(OpcodeDescriptor { code: 0x20, mnemonic: Mnemonic::Jsr, length: 3, base_cycles: 6, mode: AddressingMode::Absolute })
    } else if code == 0x21 {
        Some(OpcodeDescriptor { code: 0x21, mnemonic: Mnemonic::And, length: 2, base_cycles: 6, mode: AddressingMode::IndexedIndirect })
    } else if code == 0x24 {
        Some(OpcodeDescriptor { code: 0x24, mnemonic: Mnemonic::Bit, length: 2, base_cycles: 3, mode: AddressingMode::ZeroPage })
    } else if code == 0x25 {
        Some(OpcodeDescriptor { code: 0x25, mnemonic: Mnemonic::And, length: 2, base_cycles: 3, mode: AddressingMode::ZeroPage })
    } else if code == 0x26 {
        Some(OpcodeDescriptor { code: 0x26, mnemonic: Mnemonic::Rol, length: 2, base_cycles: 5, mode: AddressingMode::ZeroPage })
    } else if code == 0x28 {
        Some(OpcodeDescriptor { code: 0x28, mnemonic: Mnemonic::Plp, length: 1, base_cycles: 4, mode: AddressingMode::Implied })
    } else if code == 0x29 {
        Some(OpcodeDescriptor { code: 0x29, mnemonic: Mnemonic::And, length: 2, base_cycles: 2, mode: AddressingMode::Immediate })
    } else if code == 0x2A {
        Some(OpcodeDescriptor { code: 0x2A, mnemonic: Mnemonic::Rol, length: 1, base_cycles: 2, mode: AddressingMode::Implied })
    } else if code == 0x2C {
        Some(OpcodeDescriptor { code: 0x2C, mnemonic: Mnemonic::Bit, length: 3, base_cycles: 4, mode: AddressingMode::Absolute })
    } else if code == 0x2D {
        Some(OpcodeDescriptor { code: 0x2D, mnemonic: Mnemonic::And, length: 3, base_cycles: 4, mode: AddressingMode::Absolute })
    } else if code == 0x2E {
        Some(OpcodeDescriptor { code: 0x2E, mnemonic: Mnemonic::Rol, length: 3, base_cycles: 6, mode: AddressingMode::Absolute })
    } else if code == 0x30 {
        Some(OpcodeDescriptor { code: 0x30, mnemonic: Mnemonic::Bmi, length: 2, base_cycles: 2, mode: AddressingMode::Implied })
    } else if code == 0x31 {
        Some(OpcodeDescriptor { code: 0x31, mnemonic: Mnemonic::And, length: 2, base_cycles: 5, mode: AddressingMode::IndirectIndexed })
    } else if code == 0x35 {
        Some(OpcodeDescriptor { code: 0x35, mnemonic: Mnemonic::And, length: 2, base_cycles: 4, mode: AddressingMode::ZeroPageX })
    } else if code == 0x36 {
        Some(OpcodeDescriptor { code: 0x36, mnemonic: Mnemonic::Rol, length: 2, base_cycles: 6, mode: AddressingMode::ZeroPageX })
    } else if code == 0x38 {
        Some(OpcodeDescriptor { code: 0x38, mnemonic: Mnemonic::Sec, length: 1, base_cycles: 2, mode: AddressingMode::Implied })
    } else if code == 0x39 {
        Some(OpcodeDescriptor { code: 0x39, mnemonic: Mnemonic::And, length: 3, base_cycles: 4, mode: AddressingMode::AbsoluteY })
    } else if code == 0x3D {
        Some(OpcodeDescriptor { code: 0x3D, mnemonic: Mnemonic::And, length: 3, base_cycles: 4, mode: AddressingMode::AbsoluteX })
    } else if code == 0x3E {
        Some(OpcodeDescriptor { code: 0x3E, mnemonic: Mnemonic::Rol, length: 3, base_cycles: 7, mode: AddressingMode::AbsoluteX })
    } else if code == 0x40 {
        Some(OpcodeDescriptor { code: 0x40, mnemonic: Mnemonic::Rti, length: 1, base_cycles: 6, mode: AddressingMode::Implied })
    } else if code == 0x41 {
        Some(OpcodeDescriptor { code: 0x41, mnemonic: Mnemonic::Eor, length: 2, base_cycles: 6, mode: AddressingMode::IndexedIndirect })
    } else if code == 0x45 {
        Some(OpcodeDescriptor { code: 0x45, mnemonic: Mnemonic::Eor, length: 2, base_cycles: 3, mode: AddressingMode::ZeroPage })
    } else if code == 0x46 {
        Some(OpcodeDescriptor { code: 0x46, mnemonic: Mnemonic::Lsr, length: 2, base_cycles: 5, mode: AddressingMode::ZeroPage })
    } else if code == 0x48 {
        Some(OpcodeDescriptor { code: 0x48, mnemonic: Mnemonic::Pha, length: 1, base_cycles: 3, mode: AddressingMode::Implied })
    } else if code == 0x49 {
        Some(OpcodeDescriptor { code: 0x49, mnemonic: Mnemonic::Eor, length: 2, base_cycles: 2, mode: AddressingMode::Immediate })
    } else if code == 0x4A {
        Some(OpcodeDescriptor { code: 0x4A, mnemonic: Mnemonic::Lsr, length: 1, base_cycles: 2, mode: AddressingMode::Implied })
    } else if code == 0x4C {
        Some(OpcodeDescriptor { code: 0x4C, mnemonic: Mnemonic::Jmp, length: 3, base_cycles: 3, mode: AddressingMode::Absolute })
    } else if code == 0x4D {
        Some(OpcodeDescriptor { code: 0x4D, mnemonic: Mnemonic::Eor, length: 3, base_cycles: 4, mode: AddressingMode::Absolute })
    } else if code == 0x4E {
        Some(OpcodeDescriptor { code: 0x4E, mnemonic: Mnemonic::Lsr, length: 3, base_cycles: 6, mode: AddressingMode::Absolute })
    } else if code == 0x50 {
        Some(OpcodeDescriptor { code: 0x50, mnemonic: Mnemonic::Bvc, length: 2, base_cycles: 2, mode: AddressingMode::Implied })
    } else if code == 0x51 {
        Some(OpcodeDescriptor { code: 0x51, mnemonic: Mnemonic::Eor, length: 2, base_cycles: 5, mode: AddressingMode::IndirectIndexed })
    } else if code == 0x55 {
        Some(OpcodeDescriptor { code: 0x55, mnemonic: Mnemonic::Eor, length: 2, base_cycles: 4, mode: AddressingMode::ZeroPageX })
    } else if code == 0x56 {
        Some(OpcodeDescriptor { code: 0x56, mnemonic: Mnemonic::Lsr, length: 2, base_cycles: 6, mode: AddressingMode::ZeroPageX })
    } else if code == 0x58 {
        Some(OpcodeDescriptor { code: 0x58, mnemonic: Mnemonic::Cli, length: 1, base_cycles: 2, mode: AddressingMode::Implied })
    } else if code == 0x59 {
        Some(OpcodeDescriptor { code: 0x59, mnemonic: Mnemonic::Eor, length: 3, base_cycles: 4, mode: AddressingMode::AbsoluteY })
    } else if code == 0x5D {
        Some(OpcodeDescriptor { code: 0x5D, mnemonic: Mnemonic::Eor, length: 3, base_cycles: 4, mode: AddressingMode::AbsoluteX })
    } else if code == 0x5E {
        Some(OpcodeDescriptor { code: 0x5E, mnemonic: Mnemonic::Lsr, length: 3, base_cycles: 7, mode: AddressingMode::AbsoluteX })
    } else if code == 0x60 {
        Some(OpcodeDescriptor { code: 0x60, mnemonic: Mnemonic::Rts, length: 1, base_cycles: 6, mode: AddressingMode::Implied })
    } else if code == 0x61 {
        Some(OpcodeDescriptor { code: 0x61, mnemonic: Mnemonic::Adc, length: 2, base_cycles: 6, mode: AddressingMode::IndexedIndirect })
    } else if code == 0x65 {
        Some(OpcodeDescriptor { code: 0x65, mnemonic: Mnemonic::Adc, length: 2, base_cycles: 3, mode: AddressingMode::ZeroPage })
    } else if code == 0x66 {
        Some(OpcodeDescriptor { code: 0x66, mnemonic: Mnemonic::Ror, length: 2, base_cycles: 5, mode: AddressingMode::ZeroPage })
    } else if code == 0x68 {
        Some(OpcodeDescriptor { code: 0x68, mnemonic: Mnemonic::Pla, length: 1, base_cycles: 4, mode: AddressingMode::Implied })
    } else if code == 0x69 {
        Some(OpcodeDescriptor { code: 0x69, mnemonic: Mnemonic::Adc, length: 2, base_cycles: 2, mode: AddressingMode::Immediate })
    } else if code == 0x6A {
        Some(OpcodeDescriptor { code: 0x6A, mnemonic: Mnemonic::Ror, length: 1, base_cycles: 2, mode: AddressingMode::Implied })
    } else if code == 0x6C {
        Some(OpcodeDescriptor { code: 0x6C, mnemonic: Mnemonic::Jmp, length: 3, base_cycles: 5, mode: AddressingMode::Indirect })
    } else if code == 0x6D {
        Some(OpcodeDescriptor { code: 0x6D, mnemonic: Mnemonic::Adc, length: 3, base_cycles: 4, mode: AddressingMode::Absolute })
    } else if code == 0x6E {
        Some(OpcodeDescriptor { code: 0x6E, mnemonic: Mnemonic::Ror, length: 3, base_cycles: 6, mode: AddressingMode::Absolute })
    } else if code == 0x70 {
        Some(OpcodeDescriptor { code: 0x70, mnemonic: Mnemonic::Bvs, length: 2, base_cycles: 2, mode: AddressingMode::Implied })
    } else if code == 0x71 {
        Some(OpcodeDescriptor { code: 0x71, mnemonic: Mnemonic::Adc, length: 2, base_cycles: 5, mode: AddressingMode::IndirectIndexed })
    } else if code == 0x75 {
        Some(OpcodeDescriptor { code: 0x75, mnemonic: Mnemonic::Adc, length: 2, base_cycles: 4, mode: AddressingMode::ZeroPageX })
    } else if code == 0x76 {
        Some(OpcodeDescriptor { code: 0x76, mnemonic: Mnemonic::Ror, length: 2, base_cycles: 6, mode: AddressingMode::ZeroPageX })
    } else if code == 0x78 {
        Some(OpcodeDescriptor { code: 0x78, mnemonic: Mnemonic::Sei, length: 1, base_cycles: 2, mode: AddressingMode::Implied })
    } else if code == 0x79 {
        Some(OpcodeDescriptor { code: 0x79, mnemonic: Mnemonic::Adc, length: 3, base_cycles: 4, mode: AddressingMode::AbsoluteY })
    } else if code == 0x7D {
        Some(OpcodeDescriptor { code: 0x7D, mnemonic: Mnemonic::Adc, length: 3, base_cycles: 4, mode: AddressingMode::AbsoluteX })
    } else if code == 0x7E {
        Some(OpcodeDescriptor { code: 0x7E, mnemonic: Mnemonic::Ror, length: 3, base_cycles: 7, mode: AddressingMode::AbsoluteX })
    } else if code == 0x81 {
        Some(OpcodeDescriptor { code: 0x81, mnemonic: Mnemonic::Sta, length: 2, base_cycles: 6, mode: AddressingMode::IndexedIndirect })
    } else if code == 0x84 {
        Some(OpcodeDescriptor { code: 0x84, mnemonic: Mnemonic::Sty, length: 2, base_cycles: 3, mode: AddressingMode::ZeroPage })
    } else if code == 0x85 {
        Some(OpcodeDescriptor { code: 0x85, mnemonic: Mnemonic::Sta, length: 2, base_cycles: 3, mode: AddressingMode::ZeroPage })
    } else if code == 0x86 {
        Some(OpcodeDescriptor { code: 0x86, mnemonic: Mnemonic::Stx, length: 2, base_cycles: 3, mode: AddressingMode::ZeroPage })
    } else if code == 0x88 {
        Some(OpcodeDescriptor { code: 0x88, mnemonic: Mnemonic::Dey, length: 1, base_cycles: 2, mode: AddressingMode::Implied })
    } else if code == 0x8A {
        Some(OpcodeDescriptor { code: 0x8A, mnemonic: Mnemonic::Txa, length: 1, base_cycles: 2, mode: AddressingMode::Implied })
    } else if code == 0x8C {
        Some(OpcodeDescriptor { code: 0x8C, mnemonic: Mnemonic::Sty, length: 3, base_cycles: 4, mode: AddressingMode::Absolute })
    } else if code == 0x8D {
        Some(OpcodeDescriptor { code: 0x8D, mnemonic: Mnemonic::Sta, length: 3, base_cycles: 4, mode: AddressingMode::Absolute })
    } else if code == 0x8E {
        Some(OpcodeDescriptor { code: 0x8E, mnemonic: Mnemonic::Stx, length: 3, base_cycles: 4, mode: AddressingMode::Absolute })
    } else if code == 0x90 {
        Some(OpcodeDescriptor { code: 0x90, mnemonic: Mnemonic::Bcc, length: 2, base_cycles: 2, mode: AddressingMode::Implied })
    } else if code == 0x91 {
        Some(OpcodeDescriptor { code: 0x91, mnemonic: Mnemonic::Sta, length: 2, base_cycles: 6, mode: AddressingMode::IndirectIndexed })
    } else if code == 0x94 {
        Some(OpcodeDescriptor { code: 0x94, mnemonic: Mnemonic::Sty, length: 2, base_cycles: 4, mode: AddressingMode::ZeroPageX })
    } else if code == 0x95 {
        Some(OpcodeDescriptor { code: 0x95, mnemonic: Mnemonic::Sta, length: 2, base_cycles: 4, mode: AddressingMode::ZeroPageX })
    } else if code == 0x96 {
        Some(OpcodeDescriptor { code: 0x96, mnemonic: Mnemonic::Stx, length: 2, base_cycles: 4, mode: AddressingMode::ZeroPageY })
    } else if code == 0x98 {
        Some(OpcodeDescriptor { code: 0x98, mnemonic: Mnemonic::Tya, length: 1, base_cycles: 2, mode: AddressingMode::Implied })
    } else if code == 0x99 {
        Some(OpcodeDescriptor { code: 0x99, mnemonic: Mnemonic::Sta, length: 3, base_cycles: 5, mode: AddressingMode::AbsoluteY })
    } else if code == 0x9A {
        Some(OpcodeDescriptor { code: 0x9A, mnemonic: Mnemonic::Txs, length: 1, base_cycles: 2, mode: AddressingMode::Implied })
    } else if code == 0x9D {
        Some(OpcodeDescriptor { code: 0x9D, mnemonic: Mnemonic::Sta, length: 3, base_cycles: 5, mode: AddressingMode::AbsoluteX })
    } else if code == 0xA0 {
        Some(OpcodeDescriptor { code: 0xA0, mnemonic: Mnemonic::Ldy, length: 2, base_cycles: 2, mode: AddressingMode::Immediate })
    } else if code == 0xA1 {
        Some(OpcodeDescriptor { code: 0xA1, mnemonic: Mnemonic::Lda, length: 2, base_cycles: 6, mode: AddressingMode::IndexedIndirect })
    } else if code == 0xA2 {
        Some(OpcodeDescriptor { code: 0xA2, mnemonic: Mnemonic::Ldx, length: 2, base_cycles: 2, mode: AddressingMode::Immediate })
    } else if code == 0xA4 {
        Some(OpcodeDescriptor { code: 0xA4, mnemonic: Mnemonic::Ldy, length: 2, base_cycles: 3, mode: AddressingMode::ZeroPage })
    } else if code == 0xA5 {
        Some(OpcodeDescriptor { code: 0xA5, mnemonic: Mnemonic::Lda, length: 2, base_cycles: 3, mode: AddressingMode::ZeroPage })
    } else if code == 0xA6 {
        Some(OpcodeDescriptor { code: 0xA6, mnemonic: Mnemonic::Ldx, length: 2, base_cycles: 3, mode: AddressingMode::ZeroPage })
    } else if code == 0xA8 {
        Some(OpcodeDescriptor { code: 0xA8, mnemonic: Mnemonic::Tay, length: 1, base_cycles: 2, mode: AddressingMode::Implied })
    } else if code == 0xA9 {
        Some(OpcodeDescriptor { code: 0xA9, mnemonic: Mnemonic::Lda, length: 2, base_cycles: 2, mode: AddressingMode::Immediate })
    } else if code == 0xAA {
        Some(OpcodeDescriptor { code: 0xAA, mnemonic: Mnemonic::Tax, length: 1, base_cycles: 2, mode: AddressingMode::Implied })
    } else if code == 0xAC {
        Some(OpcodeDescriptor { code: 0xAC, mnemonic: Mnemonic::Ldy, length: 3, base_cycles: 4, mode: AddressingMode::Absolute })
    } else if code == 0xAD {
        Some(OpcodeDescriptor { code: 0xAD, mnemonic: Mnemonic::Lda, length: 3, base_cycles: 4, mode: AddressingMode::Absolute })
    } else if code == 0xAE {
        Some(OpcodeDescriptor { code: 0xAE, mnemonic: Mnemonic::Ldx, length: 3, base_cycles: 4, mode: AddressingMode::Absolute })
    } else if code == 0xB0 {
        Some(OpcodeDescriptor { code: 0xB0, mnemonic: Mnemonic::Bcs, length: 2, base_cycles: 2, mode: AddressingMode::Implied })
    } else if code == 0xB1 {
        Some(OpcodeDescriptor { code: 0xB1, mnemonic: Mnemonic::Lda, length: 2, base_cycles: 5, mode: AddressingMode::IndirectIndexed })
    } else if code == 0xB4 {
        Some(OpcodeDescriptor { code: 0xB4, mnemonic: Mnemonic::Ldy, length: 2, base_cycles: 4, mode: AddressingMode::ZeroPageX })
    } else if code == 0xB5 {
        Some(OpcodeDescriptor { code: 0xB5, mnemonic: Mnemonic::Lda, length: 2, base_cycles: 4, mode: AddressingMode::ZeroPageX })
    } else if code == 0xB6 {
        Some(OpcodeDescriptor { code: 0xB6, mnemonic: Mnemonic::Ldx, length: 2, base_cycles: 4, mode: AddressingMode::ZeroPageY })
    } else if code == 0xB8 {
        Some(OpcodeDescriptor { code: 0xB8, mnemonic: Mnemonic::Clv, length: 1, base_cycles: 2, mode: AddressingMode::Implied })
    } else if code == 0xB9 {
        Some(OpcodeDescriptor { code: 0xB9, mnemonic: Mnemonic::Lda, length: 3, base_cycles: 4, mode: AddressingMode::AbsoluteY })
    } else if code == 0xBA {
        Some(OpcodeDescriptor { code: 0xBA, mnemonic: Mnemonic::Tsx, length: 1, base_cycles: 2, mode: AddressingMode::Implied })
    } else if code == 0xBC {
        Some(OpcodeDescriptor { code: 0xBC, mnemonic: Mnemonic::Ldy, length: 3, base_cycles: 4, mode: AddressingMode::AbsoluteX })
    } else if code == 0xBD {
        Some(OpcodeDescriptor { code: 0xBD, mnemonic: Mnemonic::Lda, length: 3, base_cycles: 4, mode: AddressingMode::AbsoluteX })
    } else if code == 0xBE {
        Some(OpcodeDescriptor { code: 0xBE, mnemonic: Mnemonic::Ldx, length: 3, base_cycles: 4, mode: AddressingMode::AbsoluteY })
    } else if code == 0xC0 {
        Some(OpcodeDescriptor { code: 0xC0, mnemonic: Mnemonic::Cpy, length: 2, base_cycles: 2, mode: AddressingMode::Immediate })
    } else if code == 0xC1 {
        Some(OpcodeDescriptor { code: 0xC1, mnemonic: Mnemonic::Cmp, length: 2, base_cycles: 6, mode: AddressingMode::IndexedIndirect })
    } else if code == 0xC4 {
        Some(OpcodeDescriptor { code: 0xC4, mnemonic: Mnemonic::Cpy, length: 2, base_cycles: 3, mode: AddressingMode::ZeroPage })
    } else if code == 0xC5 {
        Some(OpcodeDescriptor { code: 0xC5, mnemonic: Mnemonic::Cmp, length: 2, base_cycles: 3, mode: AddressingMode::ZeroPage })
    } else if code == 0xC6 {
        Some(OpcodeDescriptor { code: 0xC6, mnemonic: Mnemonic::Dec, length: 2, base_cycles: 5, mode: AddressingMode::ZeroPage })
    } else if code == 0xC8 {
        Some(OpcodeDescriptor { code: 0xC8, mnemonic: Mnemonic::Iny, length: 1, base_cycles: 2, mode: AddressingMode::Implied })
    } else if code == 0xC9 {
        Some(OpcodeDescriptor { code: 0xC9, mnemonic: Mnemonic::Cmp, length: 2, base_cycles: 2, mode: AddressingMode::Immediate })
    } else if code == 0xCA {
        Some(OpcodeDescriptor { code: 0xCA, mnemonic: Mnemonic::Dex, length: 1, base_cycles: 2, mode: AddressingMode::Implied })
    } else if code == 0xCC {
        Some(OpcodeDescriptor { code: 0xCC, mnemonic: Mnemonic::Cpy, length: 3, base_cycles: 4, mode: AddressingMode::Absolute })
    } else if code == 0xCD {
        Some(OpcodeDescriptor { code: 0xCD, mnemonic: Mnemonic::Cmp, length: 3, base_cycles: 4, mode: AddressingMode::Absolute })
    } else if code == 0xCE {
        Some(OpcodeDescriptor { code: 0xCE, mnemonic: Mnemonic::Dec, length: 3, base_cycles: 6, mode: AddressingMode::Absolute })
    } else if code == 0xD0 {
        Some(OpcodeDescriptor { code: 0xD0, mnemonic: Mnemonic::Bne, length: 2, base_cycles: 2, mode: AddressingMode::Implied })
    } else if code == 0xD1 {
        Some(OpcodeDescriptor { code: 0xD1, mnemonic: Mnemonic::Cmp, length: 2, base_cycles: 5, mode: AddressingMode::IndirectIndexed })
    } else if code == 0xD5 {
        Some(OpcodeDescriptor { code: 0xD5, mnemonic: Mnemonic::Cmp, length: 2, base_cycles: 4, mode: AddressingMode::ZeroPageX })
    } else if code == 0xD6 {
        Some(OpcodeDescriptor { code: 0xD6, mnemonic: Mnemonic::Dec, length: 2, base_cycles: 6, mode: AddressingMode::ZeroPageX })
    } else if code == 0xD8 {
        Some(OpcodeDescriptor { code: 0xD8, mnemonic: Mnemonic::Cld, length: 1, base_cycles: 2, mode: AddressingMode::Implied })
    } else if code == 0xD9 {
        Some(OpcodeDescriptor { code: 0xD9, mnemonic: Mnemonic::Cmp, length: 3, base_cycles: 4, mode: AddressingMode::AbsoluteY })
    } else if code == 0xDD {
        Some(OpcodeDescriptor { code: 0xDD, mnemonic: Mnemonic::Cmp, length: 3, base_cycles: 4, mode: AddressingMode::AbsoluteX })
    } else if code == 0xDE {
        Some(OpcodeDescriptor { code: 0xDE, mnemonic: Mnemonic::Dec, length: 3, base_cycles: 7, mode: AddressingMode::AbsoluteX })
    } else if code == 0xE0 {
        Some(OpcodeDescriptor { code: 0xE0, mnemonic: Mnemonic::Cpx, length: 2, base_cycles: 2, mode: AddressingMode::Immediate })
    } else if code == 0xE1 {
        Some(OpcodeDescriptor { code: 0xE1, mnemonic: Mnemonic::Sbc, length: 2, base_cycles: 6, mode: AddressingMode::IndexedIndirect })
    } else if code == 0xE4 {
        Some(OpcodeDescriptor { code: 0xE4, mnemonic: Mnemonic::Cpx, length: 2, base_cycles: 3, mode: AddressingMode::ZeroPage })
    } else if code == 0xE5 {
        Some(OpcodeDescriptor { code: 0xE5, mnemonic: Mnemonic::Sbc, length: 2, base_cycles: 3, mode: AddressingMode::ZeroPage })
    } else if code == 0xE6 {
        Some(OpcodeDescriptor { code: 0xE6, mnemonic: Mnemonic::Inc, length: 2, base_cycles: 5, mode: AddressingMode::ZeroPage })
    } else if code == 0xE8 {
        Some(OpcodeDescriptor { code: 0xE8, mnemonic: Mnemonic::Inx, length: 1, base_cycles: 2, mode: AddressingMode::Implied })
    } else if code == 0xE9 {
        Some(OpcodeDescriptor { code: 0xE9, mnemonic: Mnemonic::Sbc, length: 2, base_cycles: 2, mode: AddressingMode::Immediate })
    } else if code == 0xEA {
        Some(OpcodeDescriptor { code: 0xEA, mnemonic: Mnemonic::Nop, length: 1, base_cycles: 2, mode: AddressingMode::Implied })
    } else if code == 0xEC {
        Some(OpcodeDescriptor { code: 0xEC, mnemonic: Mnemonic::Cpx, length: 3, base_cycles: 4, mode: AddressingMode::Absolute })
    } else if code == 0xED {
        Some(OpcodeDescriptor { code: 0xED, mnemonic: Mnemonic::Sbc, length: 3, base_cycles: 4, mode: AddressingMode::Absolute })
    } else if code == 0xEE {
        Some(OpcodeDescriptor { code: 0xEE, mnemonic: Mnemonic::Inc, length: 3, base_cycles: 6, mode: AddressingMode::Absolute })
    } else if code == 0xF0 {
        Some(OpcodeDescriptor { code: 0xF0, mnemonic: Mnemonic::Beq, length: 2, base_cycles: 2, mode: AddressingMode::Implied })
    } else if code == 0xF1 {
        Some(OpcodeDescriptor { code: 0xF1, mnemonic: Mnemonic::Sbc, length: 2, base_cycles: 5, mode: AddressingMode::IndirectIndexed })
    } else if code == 0xF5 {
        Some(OpcodeDescriptor { code: 0xF5, mnemonic: Mnemonic::Sbc, length: 2, base_cycles: 4, mode: AddressingMode::ZeroPageX })
    } else if code == 0xF6 {
        Some(OpcodeDescriptor { code: 0xF6, mnemonic: Mnemonic::Inc, length: 2, base_cycles: 6, mode: AddressingMode::ZeroPageX })
    } else if code == 0xF8 {
        Some(OpcodeDescriptor { code: 0xF8, mnemonic: Mnemonic::Sed, length: 1, base_cycles: 2, mode: AddressingMode::Implied })
    } else if code == 0xF9 {
        Some(OpcodeDescriptor { code: 0xF9, mnemonic: Mnemonic::Sbc, length: 3, base_cycles: 4, mode: AddressingMode::AbsoluteY })
    } else if code == 0xFD {
        Some(OpcodeDescriptor { code: 0xFD, mnemonic: Mnemonic::Sbc, length: 3, base_cycles: 4, mode: AddressingMode::AbsoluteX })
    } else if code == 0xFE {
        Some(OpcodeDescriptor { code: 0xFE, mnemonic: Mnemonic::Inc, length: 3, base_cycles: 7, mode: AddressingMode::AbsoluteX })
    } else {
        None
    }
}

fn descriptor_for(code: u8) -> (r: Option<OpcodeDescriptor>)
    ensures
        r == opcode_info(code),
{
    proof {
        reveal(opcode_info);
    }
    match code {
            0x00 => Some(
            OpcodeDescriptor { code: 0x00, mnemonic: Mnemonic::Brk, length: 1, base_cycles: 7, mode: AddressingMode::Implied },
        ),
            0x01 => Some(
            OpcodeDescriptor { code: 0x01, mnemonic: Mnemonic::Ora, length: 2, base_cycles: 6, mode: AddressingMode::IndexedIndirect },
        ),
            0x05 => Some(
            OpcodeDescriptor { code: 0x05, mnemonic: Mnemonic::Ora, length: 2, base_cycles: 3, mode: AddressingMode::ZeroPage },
        ),
            0x06 => Some(
            OpcodeDescriptor { code: 0x06, mnemonic: Mnemonic::Asl, length: 2, base_cycles: 5, mode: AddressingMode::ZeroPage },
        ),
            0x08 => Some(
            OpcodeDescriptor { code: 0x08, mnemonic: Mnemonic::Php, length: 1, base_cycles: 3, mode: AddressingMode::Implied },
        ),
            0x09 => Some(
            OpcodeDescriptor { code: 0x09, mnemonic: Mnemonic::Ora, length: 2, base_cycles: 2, mode: AddressingMode::Immediate },
        ),
            0x0A => Some(
            OpcodeDescriptor { code: 0x0A, mnemonic: Mnemonic::Asl, length: 1, base_cycles: 2, mode: AddressingMode::Implied },
        ),
            0x0D => Some(
            OpcodeDescriptor { code: 0x0D, mnemonic: Mnemonic::Ora, length: 3, base_cycles: 4, mode: AddressingMode::Absolute },
        ),
            0x0E => Some(
            OpcodeDescriptor { code: 0x0E, mnemonic: Mnemonic::Asl, length: 3, base_cycles: 6, mode: AddressingMode::Absolute },
        ),
            0x10 => Some(
            OpcodeDescriptor { code: 0x10, mnemonic: Mnemonic::Bpl, length: 2, base_cycles: 2, mode: AddressingMode::Implied },
        ),
            0x11 => Some(
            OpcodeDescriptor { code: 0x11, mnemonic: Mnemonic::Ora, length: 2, base_cycles: 5, mode: AddressingMode::IndirectIndexed },
        ),
            0x15 => Some(
            OpcodeDescriptor { code: 0x15, mnemonic: Mnemonic::Ora, length: 2, base_cycles: 4, mode: AddressingMode::ZeroPageX },
        ),
            0x16 => Some(
            OpcodeDescriptor { code: 0x16, mnemonic: Mnemonic::Asl, length: 2, base_cycles: 6, mode: AddressingMode::ZeroPageX },
        ),
            0x18 => Some(
            OpcodeDescriptor { code: 0x18, mnemonic: Mnemonic::Clc, length: 1, base_cycles: 2, mode: AddressingMode::Implied },
        ),
            0x19 => Some(
            OpcodeDescriptor { code: 0x19, mnemonic: Mnemonic::Ora, length: 3, base_cycles: 4, mode: AddressingMode::AbsoluteY },
        ),
            0x1D => Some(
            OpcodeDescriptor { code: 0x1D, mnemonic: Mnemonic::Ora, length: 3, base_cycles: 4, mode: AddressingMode::AbsoluteX },
        ),
            0x1E => Some(
            OpcodeDescriptor { code: 0x1E, mnemonic: Mnemonic::Asl, length: 3, base_cycles: 7, mode: AddressingMode::AbsoluteX },
        ),
            0x20 => Some(
            OpcodeDescriptor { code: 0x20, mnemonic: Mnemonic::Jsr, length: 3, base_cycles: 6, mode: AddressingMode::Absolute },
        ),
            0x21 => Some(
            OpcodeDescriptor { code: 0x21, mnemonic: Mnemonic::And, length: 2, base_cycles: 6, mode: AddressingMode::IndexedIndirect },
        ),
            0x24 => Some(
            OpcodeDescriptor { code: 0x24, mnemonic: Mnemonic::Bit, length: 2, base_cycles: 3, mode: AddressingMode::ZeroPage },
        ),
            0x25 => Some(
            OpcodeDescriptor { code: 0x25, mnemonic: Mnemonic::And, length: 2, base_cycles: 3, mode: AddressingMode::ZeroPage },
        ),
            0x26 => Some(
            OpcodeDescriptor { code: 0x26, mnemonic: Mnemonic::Rol, length: 2, base_cycles: 5, mode: AddressingMode::ZeroPage },
        ),
            0x28 => Some(
            OpcodeDescriptor { code: 0x28, mnemonic: Mnemonic::Plp, length: 1, base_cycles: 4, mode: AddressingMode::Implied },
        ),
            0x29 => Some(
            OpcodeDescriptor { code: 0x29, mnemonic: Mnemonic::And, length: 2, base_cycles: 2, mode: AddressingMode::Immediate },
        ),
            0x2A => Some(
            OpcodeDescriptor { code: 0x2A, mnemonic: Mnemonic::Rol, length: 1, base_cycles: 2, mode: AddressingMode::Implied },
        ),
            0x2C => Some(
            OpcodeDescriptor { code: 0x2C, mnemonic: Mnemonic::Bit, length: 3, base_cycles: 4, mode: AddressingMode::Absolute },
        ),
            0x2D => Some(
            OpcodeDescriptor { code: 0x2D, mnemonic: Mnemonic::And, length: 3, base_cycles: 4, mode: AddressingMode::Absolute },
        ),
            0x2E => Some(
            OpcodeDescriptor { code: 0x2E, mnemonic: Mnemonic::Rol, length: 3, base_cycles: 6, mode: AddressingMode::Absolute },
        ),
            0x30 => Some(
            OpcodeDescriptor { code: 0x30, mnemonic: Mnemonic::Bmi, length: 2, base_cycles: 2, mode: AddressingMode::Implied },
        ),
            0x31 => Some(
            OpcodeDescriptor { code: 0x31, mnemonic: Mnemonic::And, length: 2, base_cycles: 5, mode: AddressingMode::IndirectIndexed },
        ),
            0x35 => Some(
            OpcodeDescriptor { code: 0x35, mnemonic: Mnemonic::And, length: 2, base_cycles: 4, mode: AddressingMode::ZeroPageX },
        ),
            0x36 => Some(
            OpcodeDescriptor { code: 0x36, mnemonic: Mnemonic::Rol, length: 2, base_cycles: 6, mode: AddressingMode::ZeroPageX },
        ),
            0x38 => Some(
            OpcodeDescriptor { code: 0x38, mnemonic: Mnemonic::Sec, length: 1, base_cycles: 2, mode: AddressingMode::Implied },
        ),
            0x39 => Some(
            OpcodeDescriptor { code: 0x39, mnemonic: Mnemonic::And, length: 3, base_cycles: 4, mode: AddressingMode::AbsoluteY },
        ),
            0x3D => Some(
            OpcodeDescriptor { code: 0x3D, mnemonic: Mnemonic::And, length: 3, base_cycles: 4, mode: AddressingMode::AbsoluteX },
        ),
            0x3E => Some(
            OpcodeDescriptor { code: 0x3E, mnemonic: Mnemonic::Rol, length: 3, base_cycles: 7, mode: AddressingMode::AbsoluteX },
        ),
            0x40 => Some(
            OpcodeDescriptor { code: 0x40, mnemonic: Mnemonic::Rti, length: 1, base_cycles: 6, mode: AddressingMode::Implied },
        ),
            0x41 => Some(
            OpcodeDescriptor { code: 0x41, mnemonic: Mnemonic::Eor, length: 2, base_cycles: 6, mode: AddressingMode::IndexedIndirect },
        ),
            0x45 => Some(
            OpcodeDescriptor { code: 0x45, mnemonic: Mnemonic::Eor, length: 2, base_cycles: 3, mode: AddressingMode::ZeroPage },
        ),
            0x46 => Some(
            OpcodeDescriptor { code: 0x46, mnemonic: Mnemonic::Lsr, length: 2, base_cycles: 5, mode: AddressingMode::ZeroPage },
        ),
            0x48 => Some(
            OpcodeDescriptor { code: 0x48, mnemonic: Mnemonic::Pha, length: 1, base_cycles: 3, mode: AddressingMode::Implied },
        ),
            0x49 => Some(
            OpcodeDescriptor { code: 0x49, mnemonic: Mnemonic::Eor, length: 2, base_cycles: 2, mode: AddressingMode::Immediate },
        ),
            0x4A => Some(
            OpcodeDescriptor { code: 0x4A, mnemonic: Mnemonic::Lsr, length: 1, base_cycles: 2, mode: AddressingMode::Implied },
        ),
            0x4C => Some(
            OpcodeDescriptor { code: 0x4C, mnemonic: Mnemonic::Jmp, length: 3, base_cycles: 3, mode: AddressingMode::Absolute },
        ),
            0x4D => Some(
            OpcodeDescriptor { code: 0x4D, mnemonic: Mnemonic::Eor, length: 3, base_cycles: 4, mode: AddressingMode::Absolute },
        ),
            0x4E => Some(
            OpcodeDescriptor { code: 0x4E, mnemonic: Mnemonic::Lsr, length: 3, base_cycles: 6, mode: AddressingMode::Absolute },
        ),
            0x50 => Some(
            OpcodeDescriptor { code: 0x50, mnemonic: Mnemonic::Bvc, length: 2, base_cycles: 2, mode: AddressingMode::Implied },
        ),
            0x51 => Some(
            OpcodeDescriptor { code: 0x51, mnemonic: Mnemonic::Eor, length: 2, base_cycles: 5, mode: AddressingMode::IndirectIndexed },
        ),
            0x55 => Some(
            OpcodeDescriptor { code: 0x55, mnemonic: Mnemonic::Eor, length: 2, base_cycles: 4, mode: AddressingMode::ZeroPageX },
        ),
            0x56 => Some(
            OpcodeDescriptor { code: 0x56, mnemonic: Mnemonic::Lsr, length: 2, base_cycles: 6, mode: AddressingMode::ZeroPageX },
        ),
            0x58 => Some(
            OpcodeDescriptor { code: 0x58, mnemonic: Mnemonic::Cli, length: 1, base_cycles: 2, mode: AddressingMode::Implied },
        ),
            0x59 => Some(
            OpcodeDescriptor { code: 0x59, mnemonic: Mnemonic::Eor, length: 3, base_cycles: 4, mode: AddressingMode::AbsoluteY },
        ),
            0x5D => Some(
            OpcodeDescriptor { code: 0x5D, mnemonic: Mnemonic::Eor, length: 3, base_cycles: 4, mode: AddressingMode::AbsoluteX },
        ),
            0x5E => Some(
            OpcodeDescriptor { code: 0x5E, mnemonic: Mnemonic::Lsr, length: 3, base_cycles: 7, mode: AddressingMode::AbsoluteX },
        ),
            0x60 => Some(
            OpcodeDescriptor { code: 0x60, mnemonic: Mnemonic::Rts, length: 1, base_cycles: 6, mode: AddressingMode::Implied },
        ),
            0x61 => Some(
            OpcodeDescriptor { code: 0x61, mnemonic: Mnemonic::Adc, length: 2, base_cycles: 6, mode: AddressingMode::IndexedIndirect },
        ),
            0x65 => Some(
            OpcodeDescriptor { code: 0x65, mnemonic: Mnemonic::Adc, length: 2, base_cycles: 3, mode: AddressingMode::ZeroPage },
        ),
            0x66 => Some(
            OpcodeDescriptor { code: 0x66, mnemonic: Mnemonic::Ror, length: 2, base_cycles: 5, mode: AddressingMode::ZeroPage },
        ),
            0x68 => Some(
            OpcodeDescriptor { code: 0x68, mnemonic: Mnemonic::Pla, length: 1, base_cycles: 4, mode: AddressingMode::Implied },
        ),
            0x69 => Some(
            OpcodeDescriptor { code: 0x69, mnemonic: Mnemonic::Adc, length: 2, base_cycles: 2, mode: AddressingMode::Immediate },
        ),
            0x6A => Some(
            OpcodeDescriptor { code: 0x6A, mnemonic: Mnemonic::Ror, length: 1, base_cycles: 2, mode: AddressingMode::Implied },
        ),
            0x6C => Some(
            OpcodeDescriptor { code: 0x6C, mnemonic: Mnemonic::Jmp, length: 3, base_cycles: 5, mode: AddressingMode::Indirect },
        ),
            0x6D => Some(
            OpcodeDescriptor { code: 0x6D, mnemonic: Mnemonic::Adc, length: 3, base_cycles: 4, mode: AddressingMode::Absolute },
        ),
            0x6E => Some(
            OpcodeDescriptor { code: 0x6E, mnemonic: Mnemonic::Ror, length: 3, base_cycles: 6, mode: AddressingMode::Absolute },
        ),
            0x70 => Some(
            OpcodeDescriptor { code: 0x70, mnemonic: Mnemonic::Bvs, length: 2, base_cycles: 2, mode: AddressingMode::Implied },
        ),
            0x71 => Some(
            OpcodeDescriptor { code: 0x71, mnemonic: Mnemonic::Adc, length: 2, base_cycles: 5, mode: AddressingMode::IndirectIndexed },
        ),
            0x75 => Some(
            OpcodeDescriptor { code: 0x75, mnemonic: Mnemonic::Adc, length: 2, base_cycles: 4, mode: AddressingMode::ZeroPageX },
        ),
            0x76 => Some(
            OpcodeDescriptor { code: 0x76, mnemonic: Mnemonic::Ror, length: 2, base_cycles: 6, mode: AddressingMode::ZeroPageX },
        ),
            0x78 => Some(
            OpcodeDescriptor { code: 0x78, mnemonic: Mnemonic::Sei, length: 1, base_cycles: 2, mode: AddressingMode::Implied },
        ),
            0x79 => Some(
            OpcodeDescriptor { code: 0x79, mnemonic: Mnemonic::Adc, length: 3, base_cycles: 4, mode: AddressingMode::AbsoluteY },
        ),
            0x7D => Some(
            OpcodeDescriptor { code: 0x7D, mnemonic: Mnemonic::Adc, length: 3, base_cycles: 4, mode: AddressingMode::AbsoluteX },
        ),
            0x7E => Some(
            OpcodeDescriptor { code: 0x7E, mnemonic: Mnemonic::Ror, length: 3, base_cycles: 7, mode: AddressingMode::AbsoluteX },
        ),
            0x81 => Some(
            OpcodeDescriptor { code: 0x81, mnemonic: Mnemonic::Sta, length: 2, base_cycles: 6, mode: AddressingMode::IndexedIndirect },
        ),
            0x84 => Some(
            OpcodeDescriptor { code: 0x84, mnemonic: Mnemonic::Sty, length: 2, base_cycles: 3, mode: AddressingMode::ZeroPage },
        ),
            0x85 => Some(
            OpcodeDescriptor { code: 0x85, mnemonic: Mnemonic::Sta, length: 2, base_cycles: 3, mode: AddressingMode::ZeroPage },
        ),
            0x86 => Some(
            OpcodeDescriptor { code: 0x86, mnemonic: Mnemonic::Stx, length: 2, base_cycles: 3, mode: AddressingMode::ZeroPage },
        ),
            0x88 => Some(
            OpcodeDescriptor { code: 0x88, mnemonic: Mnemonic::Dey, length: 1, base_cycles: 2, mode: AddressingMode::Implied },
        ),
            0x8A => Some(
            OpcodeDescriptor { code: 0x8A, mnemonic: Mnemonic::Txa, length: 1, base_cycles: 2, mode: AddressingMode::Implied },
        ),
            0x8C => Some(
            OpcodeDescriptor { code: 0x8C, mnemonic: Mnemonic::Sty, length: 3, base_cycles: 4, mode: AddressingMode::Absolute },
        ),
            0x8D => Some(
            OpcodeDescriptor { code: 0x8D, mnemonic: Mnemonic::Sta, length: 3, base_cycles: 4, mode: AddressingMode::Absolute },
        ),
            0x8E => Some(
            OpcodeDescriptor { code: 0x8E, mnemonic: Mnemonic::Stx, length: 3, base_cycles: 4, mode: AddressingMode::Absolute },
        ),
            0x90 => Some(
            OpcodeDescriptor { code: 0x90, mnemonic: Mnemonic::Bcc, length: 2, base_cycles: 2, mode: AddressingMode::Implied },
        ),
            0x91 => Some(
            OpcodeDescriptor { code: 0x91, mnemonic: Mnemonic::Sta, length: 2, base_cycles: 6, mode: AddressingMode::IndirectIndexed },
        ),
            0x94 => Some(
            OpcodeDescriptor { code: 0x94, mnemonic: Mnemonic::Sty, length: 2, base_cycles: 4, mode: AddressingMode::ZeroPageX },
        ),
            0x95 => Some(
            OpcodeDescriptor { code: 0x95, mnemonic: Mnemonic::Sta, length: 2, base_cycles: 4, mode: AddressingMode::ZeroPageX },
        ),
            0x96 => Some(
            OpcodeDescriptor { code: 0x96, mnemonic: Mnemonic::Stx, length: 2, base_cycles: 4, mode: AddressingMode::ZeroPageY },
        ),
            0x98 => Some(
            OpcodeDescriptor { code: 0x98, mnemonic: Mnemonic::Tya, length: 1, base_cycles: 2, mode: AddressingMode::Implied },
        ),
            0x99 => Some(
            OpcodeDescriptor { code: 0x99, mnemonic: Mnemonic::Sta, length: 3, base_cycles: 5, mode: AddressingMode::AbsoluteY },
        ),
            0x9A => Some(
            OpcodeDescriptor { code: 0x9A, mnemonic: Mnemonic::Txs, length: 1, base_cycles: 2, mode: AddressingMode::Implied },
        ),
            0x9D => Some(
            OpcodeDescriptor { code: 0x9D, mnemonic: Mnemonic::Sta, length: 3, base_cycles: 5, mode: AddressingMode::AbsoluteX },
        ),
            0xA0 => Some(
            OpcodeDescriptor { code: 0xA0, mnemonic: Mnemonic::Ldy, length: 2, base_cycles: 2, mode: AddressingMode::Immediate },
        ),
            0xA1 => Some(
            OpcodeDescriptor { code: 0xA1, mnemonic: Mnemonic::Lda, length: 2, base_cycles: 6, mode: AddressingMode::IndexedIndirect },
        ),
            0xA2 => Some(
            OpcodeDescriptor { code: 0xA2, mnemonic: Mnemonic::Ldx, length: 2, base_cycles: 2, mode: AddressingMode::Immediate },
        ),
            0xA4 => Some(
            OpcodeDescriptor { code: 0xA4, mnemonic: Mnemonic::Ldy, length: 2, base_cycles: 3, mode: AddressingMode::ZeroPage },
        ),
            0xA5 => Some(
            OpcodeDescriptor { code: 0xA5, mnemonic: Mnemonic::Lda, length: 2, base_cycles: 3, mode: AddressingMode::ZeroPage },
        ),
            0xA6 => Some(
            OpcodeDescriptor { code: 0xA6, mnemonic: Mnemonic::Ldx, length: 2, base_cycles: 3, mode: AddressingMode::ZeroPage },
        ),
            0xA8 => Some(
            OpcodeDescriptor { code: 0xA8, mnemonic: Mnemonic::Tay, length: 1, base_cycles: 2, mode: AddressingMode::Implied },
        ),
            0xA9 => Some(
            OpcodeDescriptor { code: 0xA9, mnemonic: Mnemonic::Lda, length: 2, base_cycles: 2, mode: AddressingMode::Immediate },
        ),
            0xAA => Some(
            OpcodeDescriptor { code: 0xAA, mnemonic: Mnemonic::Tax, length: 1, base_cycles: 2, mode: AddressingMode::Implied },
        ),
            0xAC => Some(
            OpcodeDescriptor { code: 0xAC, mnemonic: Mnemonic::Ldy, length: 3, base_cycles: 4, mode: AddressingMode::Absolute },
        ),
            0xAD => Some(
            OpcodeDescriptor { code: 0xAD, mnemonic: Mnemonic::Lda, length: 3, base_cycles: 4, mode: AddressingMode::Absolute },
        ),
            0xAE => Some(
            OpcodeDescriptor { code: 0xAE, mnemonic: Mnemonic::Ldx, length: 3, base_cycles: 4, mode: AddressingMode::Absolute },
        ),
            0xB0 => Some(
            OpcodeDescriptor { code: 0xB0, mnemonic: Mnemonic::Bcs, length: 2, base_cycles: 2, mode: AddressingMode::Implied },
        ),
            0xB1 => Some(
            OpcodeDescriptor { code: 0xB1, mnemonic: Mnemonic::Lda, length: 2, base_cycles: 5, mode: AddressingMode::IndirectIndexed },
        ),
            0xB4 => Some(
            OpcodeDescriptor { code: 0xB4, mnemonic: Mnemonic::Ldy, length: 2, base_cycles: 4, mode: AddressingMode::ZeroPageX },
        ),
            0xB5 => Some(
            OpcodeDescriptor { code: 0xB5, mnemonic: Mnemonic::Lda, length: 2, base_cycles: 4, mode: AddressingMode::ZeroPageX },
        ),
            0xB6 => Some(
            OpcodeDescriptor { code: 0xB6, mnemonic: Mnemonic::Ldx, length: 2, base_cycles: 4, mode: AddressingMode::ZeroPageY },
        ),
            0xB8 => Some(
            OpcodeDescriptor { code: 0xB8, mnemonic: Mnemonic::Clv, length: 1, base_cycles: 2, mode: AddressingMode::Implied },
        ),
            0xB9 => Some(
            OpcodeDescriptor { code: 0xB9, mnemonic: Mnemonic::Lda, length: 3, base_cycles: 4, mode: AddressingMode::AbsoluteY },
        ),
            0xBA => Some(
            OpcodeDescriptor { code: 0xBA, mnemonic: Mnemonic::Tsx, length: 1, base_cycles: 2, mode: AddressingMode::Implied },
        ),
            0xBC => Some(
            OpcodeDescriptor { code: 0xBC, mnemonic: Mnemonic::Ldy, length: 3, base_cycles: 4, mode: AddressingMode::AbsoluteX },
        ),
            0xBD => Some(
            OpcodeDescriptor { code: 0xBD, mnemonic: Mnemonic::Lda, length: 3, base_cycles: 4, mode: AddressingMode::AbsoluteX },
        ),
            0xBE => Some(
            OpcodeDescriptor { code: 0xBE, mnemonic: Mnemonic::Ldx, length: 3, base_cycles: 4, mode: AddressingMode::AbsoluteY },
        ),
            0xC0 => Some(
            OpcodeDescriptor { code: 0xC0, mnemonic: Mnemonic::Cpy, length: 2, base_cycles: 2, mode: AddressingMode::Immediate },
        ),
            0xC1 => Some(
            OpcodeDescriptor { code: 0xC1, mnemonic: Mnemonic::Cmp, length: 2, base_cycles: 6, mode: AddressingMode::IndexedIndirect },
        ),
            0xC4 => Some(
            OpcodeDescriptor { code: 0xC4, mnemonic: Mnemonic::Cpy, length: 2, base_cycles: 3, mode: AddressingMode::ZeroPage },
        ),
            0xC5 => Some(
            OpcodeDescriptor { code: 0xC5, mnemonic: Mnemonic::Cmp, length: 2, base_cycles: 3, mode: AddressingMode::ZeroPage },
        ),
            0xC6 => Some(
            OpcodeDescriptor { code: 0xC6, mnemonic: Mnemonic::Dec, length: 2, base_cycles: 5, mode: AddressingMode::ZeroPage },
        ),
            0xC8 => Some(
            OpcodeDescriptor { code: 0xC8, mnemonic: Mnemonic::Iny, length: 1, base_cycles: 2, mode: AddressingMode::Implied },
        ),
            0xC9 => Some(
            OpcodeDescriptor { code: 0xC9, mnemonic: Mnemonic::Cmp, length: 2, base_cycles: 2, mode: AddressingMode::Immediate },
        ),
            0xCA => Some(
            OpcodeDescriptor { code: 0xCA, mnemonic: Mnemonic::Dex, length: 1, base_cycles: 2, mode: AddressingMode::Implied },
        ),
            0xCC => Some(
            OpcodeDescriptor { code: 0xCC, mnemonic: Mnemonic::Cpy, length: 3, base_cycles: 4, mode: AddressingMode::Absolute },
        ),
            0xCD => Some(
            OpcodeDescriptor { code: 0xCD, mnemonic: Mnemonic::Cmp, length: 3, base_cycles: 4, mode: AddressingMode::Absolute },
        ),
            0xCE => Some(
            OpcodeDescriptor { code: 0xCE, mnemonic: Mnemonic::Dec, length: 3, base_cycles: 6, mode: AddressingMode::Absolute },
        ),
            0xD0 => Some(
            OpcodeDescriptor { code: 0xD0, mnemonic: Mnemonic::Bne, length: 2, base_cycles: 2, mode: AddressingMode::Implied },
        ),
            0xD1 => Some(
            OpcodeDescriptor { code: 0xD1, mnemonic: Mnemonic::Cmp, length: 2, base_cycles: 5, mode: AddressingMode::IndirectIndexed },
        ),
            0xD5 => Some(
            OpcodeDescriptor { code: 0xD5, mnemonic: Mnemonic::Cmp, length: 2, base_cycles: 4, mode: AddressingMode::ZeroPageX },
        ),
            0xD6 => Some(
            OpcodeDescriptor { code: 0xD6, mnemonic: Mnemonic::Dec, length: 2, base_cycles: 6, mode: AddressingMode::ZeroPageX },
        ),
            0xD8 => Some(
            OpcodeDescriptor { code: 0xD8, mnemonic: Mnemonic::Cld, length: 1, base_cycles: 2, mode: AddressingMode::Implied },
        ),
            0xD9 => Some(
            OpcodeDescriptor { code: 0xD9, mnemonic: Mnemonic::Cmp, length: 3, base_cycles: 4, mode: AddressingMode::AbsoluteY },
        ),
            0xDD => Some(
            OpcodeDescriptor { code: 0xDD, mnemonic: Mnemonic::Cmp, length: 3, base_cycles: 4, mode: AddressingMode::AbsoluteX },
        ),
            0xDE => Some(
            OpcodeDescriptor { code: 0xDE, mnemonic: Mnemonic::Dec, length: 3, base_cycles: 7, mode: AddressingMode::AbsoluteX },
        ),
            0xE0 => Some(
            OpcodeDescriptor { code: 0xE0, mnemonic: Mnemonic::Cpx, length: 2, base_cycles: 2, mode: AddressingMode::Immediate },
        ),
            0xE1 => Some(
            OpcodeDescriptor { code: 0xE1, mnemonic: Mnemonic::Sbc, length: 2, base_cycles: 6, mode: AddressingMode::IndexedIndirect },
        ),
            0xE4 => Some(
            OpcodeDescriptor { code: 0xE4, mnemonic: Mnemonic::Cpx, length: 2, base_cycles: 3, mode: AddressingMode::ZeroPage },
        ),
            0xE5 => Some(
            OpcodeDescriptor { code: 0xE5, mnemonic: Mnemonic::Sbc, length: 2, base_cycles: 3, mode: AddressingMode::ZeroPage },
        ),
            0xE6 => Some(
            OpcodeDescriptor { code: 0xE6, mnemonic: Mnemonic::Inc, length: 2, base_cycles: 5, mode: AddressingMode::ZeroPage },
        ),
            0xE8 => Some(
            OpcodeDescriptor { code: 0xE8, mnemonic: Mnemonic::Inx, length: 1, base_cycles: 2, mode: AddressingMode::Implied },
        ),
            0xE9 => Some(
            OpcodeDescriptor { code: 0xE9, mnemonic: Mnemonic::Sbc, length: 2, base_cycles: 2, mode: AddressingMode::Immediate },
        ),
            0xEA => Some(
            OpcodeDescriptor { code: 0xEA, mnemonic: Mnemonic::Nop, length: 1, base_cycles: 2, mode: AddressingMode::Implied },
        ),
            0xEC => Some(
            OpcodeDescriptor { code: 0xEC, mnemonic: Mnemonic::Cpx, length: 3, base_cycles: 4, mode: AddressingMode::Absolute },
        ),
            0xED => Some(
            OpcodeDescriptor { code: 0xED, mnemonic: Mnemonic::Sbc, length: 3, base_cycles: 4, mode: AddressingMode::Absolute },
        ),
            0xEE => Some(
            OpcodeDescriptor { code: 0xEE, mnemonic: Mnemonic::Inc, length: 3, base_cycles: 6, mode: AddressingMode::Absolute },
        ),
            0xF0 => Some(
            OpcodeDescriptor { code: 0xF0, mnemonic: Mnemonic::Beq, length: 2, base_cycles: 2, mode: AddressingMode::Implied },
        ),
            0xF1 => Some(
            OpcodeDescriptor { code: 0xF1, mnemonic: Mnemonic::Sbc, length: 2, base_cycles: 5, mode: AddressingMode::IndirectIndexed },
        ),
            0xF5 => Some(
            OpcodeDescriptor { code: 0xF5, mnemonic: Mnemonic::Sbc, length: 2, base_cycles: 4, mode: AddressingMode::ZeroPageX },
        ),
            0xF6 => Some(
            OpcodeDescriptor { code: 0xF6, mnemonic: Mnemonic::Inc, length: 2, base_cycles: 6, mode: AddressingMode::ZeroPageX },
        ),
            0xF8 => Some(
            OpcodeDescriptor { code: 0xF8, mnemonic: Mnemonic::Sed, length: 1, base_cycles: 2, mode: AddressingMode::Implied },
        ),
            0xF9 => Some(
            OpcodeDescriptor { code: 0xF9, mnemonic: Mnemonic::Sbc, length: 3, base_cycles: 4, mode: AddressingMode::AbsoluteY },
        ),
            0xFD => Some(
            OpcodeDescriptor { code: 0xFD, mnemonic: Mnemonic::Sbc, length: 3, base_cycles: 4, mode: AddressingMode::AbsoluteX },
        ),
            0xFE => Some(
            OpcodeDescriptor { code: 0xFE, mnemonic: Mnemonic::Inc, length: 3, base_cycles: 7, mode: AddressingMode::AbsoluteX },
        ),
        _ => None,
    }
}

/// A 256-entry array indexed directly by instruction byte, `None` marking
/// bytes outside the documented set.
pub struct OpcodeTable {
    entries: Vec<Option<OpcodeDescriptor>>,
}

impl OpcodeTable {
    pub closed spec fn wf(self) -> bool {
        &&& self.entries@.len() == 256
        &&& forall|i: int| 0 <= i < 256 ==> self.entries@[i] == opcode_info(i as u8)
    }

    pub fn new() -> (r: OpcodeTable)
        ensures
            r.wf(),
    {
        let mut entries: Vec<Option<OpcodeDescriptor>> = Vec::new();
        let mut i: usize = 0;
        while i < 256
            invariant
                i == entries@.len(),
                i <= 256,
                forall|j: int| 0 <= j < i ==> entries@[j] == opcode_info(j as u8),
            decreases 256 - i,
        {
            entries.push(descriptor_for(i as u8));
            i = i + 1;
        }
        OpcodeTable { entries }
    }

    /// The descriptor of `code`, or `None` when `code` is not a documented
    /// instruction. Absence is a fatal decode failure for the engine, never
    /// an implicit no-op.
    pub fn lookup(&self, code: u8) -> (r: Option<OpcodeDescriptor>)
        requires
            self.wf(),
        ensures
            r == opcode_info(code),
    {
        self.entries[code as usize]
    }
}

/// Mnemonics that compute their own next program counter instead of
/// advancing by the instruction length.
pub open spec fn is_control_transfer(m: Mnemonic) -> bool {
    is_branch(m) || m == Mnemonic::Jmp || m == Mnemonic::Jsr || m == Mnemonic::Rts || m
        == Mnemonic::Rti || m == Mnemonic::Brk
}

pub open spec fn is_branch(m: Mnemonic) -> bool {
    m == Mnemonic::Bcc || m == Mnemonic::Bcs || m == Mnemonic::Beq || m == Mnemonic::Bne || m
        == Mnemonic::Bmi || m == Mnemonic::Bpl || m == Mnemonic::Bvc || m == Mnemonic::Bvs
}

/// Every descriptor in the table carries its own instruction byte, a length
/// of 1 to 3 bytes, an addressing mode consistent with that length, and
/// every branch is a 2-byte encoding.
pub proof fn lemma_opcode_info_valid(code: u8)
    ensures
        opcode_info(code) matches Some(d) ==> {
            &&& d.code == code
            &&& 1 <= d.length <= 3
            &&& (d.mode == AddressingMode::Immediate ==> d.length == 2)
            &&& (d.mode == AddressingMode::ZeroPage ==> d.length == 2)
            &&& (d.mode == AddressingMode::ZeroPageX ==> d.length == 2)
            &&& (d.mode == AddressingMode::ZeroPageY ==> d.length == 2)
            &&& (d.mode == AddressingMode::Absolute ==> d.length == 3)
            &&& (d.mode == AddressingMode::AbsoluteX ==> d.length == 3)
            &&& (d.mode == AddressingMode::AbsoluteY ==> d.length == 3)
            &&& (d.mode == AddressingMode::Indirect ==> d.length == 3)
            &&& (d.mode == AddressingMode::IndexedIndirect ==> d.length == 2)
            &&& (d.mode == AddressingMode::IndirectIndexed ==> d.length == 2)
            &&& (is_branch(d.mnemonic) ==> d.length == 2)
            &&& (d.mnemonic == Mnemonic::Brk ==> d.length == 1)
        },
{
    reveal(opcode_info);
}

} // verus!
