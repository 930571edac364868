//! General properties of the execution model, proved once and for all
//! states: program-counter advancement, branch behaviour, and stack
//! discipline.

use vstd::prelude::*;

use crate::bus::word_at;
use crate::model::{
    branch_taken, branch_target, decode_ok, pull_spec, push_spec, step_spec, CpuView,
};
use crate::opcodes::{is_branch, is_control_transfer, lemma_opcode_info_valid, opcode_info};

verus! {

/// Every instruction that is not a branch, jump, call, return or break
/// consumes exactly its declared length: one step advances the program
/// counter by the length of the decoded instruction, whatever the operand
/// bytes hold.
#[verifier::rlimit(100)]
#[verifier::spinoff_prover]
pub proof fn lemma_step_advances_by_length(s: CpuView)
    requires
        !s.halted,
        decode_ok(s),
        !is_control_transfer(opcode_info(s.mem[s.pc as int]).unwrap().mnemonic),
    ensures
        step_spec(s).pc == s.pc.wrapping_add(
            opcode_info(s.mem[s.pc as int]).unwrap().length as u16,
        ),
{
    lemma_opcode_info_valid(s.mem[s.pc as int]);
}

/// A conditional branch whose tested flag does not match its condition
/// changes nothing but the program counter, which advances only past the
/// branch's own 2-byte encoding; a matching condition adds the signed
/// offset to that fall-through address instead.
pub proof fn lemma_branch_behaviour(s: CpuView)
    requires
        !s.halted,
        decode_ok(s),
        is_branch(opcode_info(s.mem[s.pc as int]).unwrap().mnemonic),
    ensures
        ({
            let m = opcode_info(s.mem[s.pc as int]).unwrap().mnemonic;
            let fallthrough = s.pc.wrapping_add(2);
            let off = s.mem[s.pc.wrapping_add(1) as int];
            if branch_taken(m, s.flags) {
                step_spec(s) == (CpuView { pc: branch_target(fallthrough, off), ..s })
            } else {
                step_spec(s) == (CpuView { pc: fallthrough, ..s })
            }
        }),
{
    lemma_opcode_info_valid(s.mem[s.pc as int]);
    let m = opcode_info(s.mem[s.pc as int]).unwrap().mnemonic;
    let fallthrough = s.pc.wrapping_add(2);
    let off = s.mem[s.pc.wrapping_add(1) as int];
    if branch_taken(m, s.flags) {
        assert(step_spec(s) =~= (CpuView { pc: branch_target(fallthrough, off), ..s }));
    } else {
        assert(step_spec(s) =~= (CpuView { pc: fallthrough, ..s }));
    }
}

/// A push followed by a pull hands back the pushed byte and returns the
/// stack pointer to its pre-push value, from every starting state.
pub proof fn lemma_push_pull_roundtrip(s: CpuView, v: u8)
    requires
        s.wf(),
    ensures
        pull_spec(push_spec(s, v)).1 == v,
        pull_spec(push_spec(s, v)).0.sp == s.sp,
        pull_spec(push_spec(s, v)).0.a == s.a,
{
}

/// The state after the bytes of `vs` have been pushed one after the other.
pub open spec fn pushed_all(s: CpuView, vs: Seq<u8>) -> CpuView
    decreases vs.len(),
{
    if vs.len() == 0 {
        s
    } else {
        push_spec(pushed_all(s, vs.drop_last()), vs.last())
    }
}

/// Each push steps the stack pointer down by one, modulo 256; no number
/// of consecutive pushes can fail.
pub proof fn lemma_pushes_move_sp(s: CpuView, vs: Seq<u8>)
    ensures
        pushed_all(s, vs).sp as int == (s.sp - vs.len()) % 256,
    decreases vs.len(),
{
    if vs.len() > 0 {
        lemma_pushes_move_sp(s, vs.drop_last());
    }
}

/// 256 consecutive pushes wrap the stack pointer back to its starting
/// value.
pub proof fn lemma_256_pushes_wrap(s: CpuView, vs: Seq<u8>)
    requires
        vs.len() == 256,
    ensures
        pushed_all(s, vs).sp == s.sp,
{
    lemma_pushes_move_sp(s, vs);
}

/// Executing a push of the accumulator and then a pull of the accumulator
/// restores the accumulator and the stack pointer and resumes just past
/// the two one-byte instructions. The pushed byte must not land on the
/// pull's own opcode.
pub proof fn lemma_push_pull_accumulator(s: CpuView)
    requires
        s.wf(),
        !s.halted,
        s.mem[s.pc as int] == 0x48u8,
        s.mem[s.pc.wrapping_add(1) as int] == 0x68u8,
        0x100 + s.sp as int != s.pc.wrapping_add(1) as int,
    ensures
        ({
            let s2 = step_spec(step_spec(s));
            &&& s2.a == s.a
            &&& s2.sp == s.sp
            &&& s2.pc == s.pc.wrapping_add(2)
            &&& !s2.halted
        }),
{
    reveal(opcode_info);
}

/// Executing a subroutine call and then, at its target, a return resumes
/// execution at the instruction immediately following the call, with the
/// stack pointer restored. The two pushed return-address bytes must not
/// land on the return instruction itself.
pub proof fn lemma_call_return_resumes(s: CpuView)
    requires
        s.wf(),
        !s.halted,
        s.mem[s.pc as int] == 0x20u8,
        s.mem[word_at(s.mem, s.pc.wrapping_add(1)) as int] == 0x60u8,
        word_at(s.mem, s.pc.wrapping_add(1)) as int != 0x100 + s.sp as int,
        word_at(s.mem, s.pc.wrapping_add(1)) as int != 0x100 + s.sp.wrapping_sub(1) as int,
    ensures
        ({
            let s2 = step_spec(step_spec(s));
            &&& s2.pc == s.pc.wrapping_add(3)
            &&& s2.sp == s.sp
            &&& s2.a == s.a
            &&& s2.x == s.x
            &&& s2.y == s.y
            &&& s2.flags == s.flags
            &&& !s2.halted
        }),
{
    reveal(opcode_info);
}

} // verus!
