//! Assembling 6502 source text into machine code through the external
//! assembler collaborator.

use vstd::prelude::*;

verus! {

/// The machine code the external assembler produces for the given source
/// text, or `None` when the text does not assemble. The result depends on
/// the source bytes alone.
pub uninterp spec fn assembled_code(src: Seq<u8>) -> Option<Seq<u8>>;

/// Relies on asm6502::assemble: translates 6502 assembly text into machine
/// code appended to a fresh buffer, deterministically in the source bytes;
/// the error describes the failure.
#[verifier::external_body]
fn assemble_with_asm6502(src: &[u8]) -> (r: Result<Vec<u8>, String>)
    ensures
        r matches Ok(code) ==> assembled_code(src@) == Some(code@),
        r is Err ==> assembled_code(src@) is None,
{
    let mut buf: Vec<u8> = Vec::new();
    match asm6502::assemble(src, &mut buf) {
        Ok(()) => Ok(buf),
        Err(msg) => Err(msg),
    }
}

/// Assembles 6502 source text into machine code, or returns the
/// assembler's description of the failure. An assembly failure is fatal:
/// emulation never starts on a program that did not assemble.
pub fn assemble_program(src: &[u8]) -> (r: Result<Vec<u8>, String>)
    ensures
        r matches Ok(code) ==> assembled_code(src@) == Some(code@),
        r is Err ==> assembled_code(src@) is None,
{
    assemble_with_asm6502(src)
}

} // verus!
