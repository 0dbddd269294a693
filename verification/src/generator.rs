//! Random instruction generation.
//!
//! Given a position and the total program length, `generate_random_instr`
//! produces one structurally valid instruction record: the opcode comes from
//! the catalog, a branch-class offset always lands inside the program, a
//! bit-swap-class immediate is one of 16, 32 or 64, and register ids stay in
//! `[0, 10)`.

use vstd::prelude::*;
use rand::Rng;
use crate::catalog::{
    bitswap_table_spec, branch_table_spec, is_bitswap_opcode, is_branch_opcode, opcode_table,
    opcode_table_spec,
};
use crate::instr::EbpfInstr;

verus! {

/// Relies on rand::Rng::gen_range on rand::thread_rng: returns a value of the
/// range `[0, n)`; it panics on an empty range, which the precondition rules
/// out.
#[verifier::external_body]
fn random_index(n: usize) -> (r: usize)
    requires
        0 < n,
    ensures
        r < n,
{
    rand::thread_rng().gen_range(0..n)
}

/// Relies on rand::Rng::gen_range on rand::thread_rng: returns a value of the
/// range `[lo, hi)`; it panics on an empty range, which the precondition
/// rules out.
#[verifier::external_body]
fn random_i32_in(lo: i32, hi: i32) -> (r: i32)
    requires
        lo < hi,
    ensures
        lo <= r < hi,
{
    rand::thread_rng().gen_range(lo..hi)
}

/// Relies on rand::Rng::gen on rand::thread_rng: returns an arbitrary i32;
/// nothing is promised of the value.
#[verifier::external_body]
fn random_i32() -> (r: i32)
{
    rand::thread_rng().gen()
}

/// The signed value a 16-bit offset field stands for, reading the field as a
/// two's-complement number.
pub open spec fn offset_signed(o: u16) -> int {
    if o < 0x8000 {
        o as int
    } else {
        o as int - 0x10000
    }
}

/// Structural validity of one record generated for `position` in a program of
/// `program_length` encoded slots (terminal instruction included).
pub open spec fn instr_ok(r: EbpfInstr, position: int, program_length: int) -> bool {
    &&& opcode_table_spec().contains(r.opcode)
    &&& (branch_table_spec().contains(r.opcode) ==> 0 <= position + offset_signed(r.offset)
        < program_length)
    &&& (bitswap_table_spec().contains(r.opcode) ==> (r.imm == 16 || r.imm == 32 || r.imm == 64))
    &&& r.dst < 10
    &&& r.src < 10
}

/// The reachability check for a branch: whether the landing index
/// `position + offset`, with the offset read as signed, lies inside the
/// program.
pub fn branch_target_in_range(position: usize, offset: u16, program_length: usize) -> (r: bool)
    requires
        position <= 0x8000,
        program_length <= 0x8000,
    ensures
        r == (0 <= position + offset_signed(offset) < program_length),
{
    let signed: i32 = if offset < 0x8000 {
        offset as i32
    } else {
        offset as i32 - 0x10000
    };
    let landing: i32 = position as i32 + signed;
    0 <= landing && landing < program_length as i32
}

/// Generates one random instruction record for `position` in a program of
/// `program_length` slots.
///
/// The opcode is sampled uniformly from the catalog table, so the table's
/// duplicate entries weight the distribution. A branch-class offset is drawn
/// from `[-position, program_length - position - 1]`, both bounds inclusive,
/// and stored as the two's-complement bit pattern, so the landing index
/// ranges over the whole program, terminal slot included. Any other offset is
/// drawn from the full 16-bit range `[0, 0xFFFF]`. A bit-swap-class immediate
/// is one of 16, 32 or 64; any other immediate is an arbitrary i32. Register
/// ids are drawn from `[0, 10)`.
pub fn generate_random_instr(position: usize, program_length: usize) -> (r: EbpfInstr)
    requires
        position < program_length,
        program_length <= 0x8000,
    ensures
        instr_ok(r, position as int, program_length as int),
{
    let table = opcode_table();
    let idx = random_index(table.len());
    let opcode = table[idx];
    proof {
        assert(opcode_table_spec()[idx as int] == opcode);
        assert(opcode_table_spec().contains(opcode));
    }

    let is_branch = is_branch_opcode(opcode);
    let is_bit_swap = is_bitswap_opcode(opcode);

    let offset: u16;
    if is_branch {
        let lo: i32 = -(position as i32);
        let hi: i32 = (program_length - position) as i32;
        let off = random_i32_in(lo, hi);
        if off >= 0 {
            offset = off as u16;
        } else {
            offset = (off + 0x10000) as u16;
        }
        assert(offset_signed(offset) == off);
    } else {
        offset = random_i32_in(0, 0x10000) as u16;
    }

    let imm: i32;
    if is_bit_swap {
        let values: Vec<i32> = vec![16, 32, 64];
        let k = random_index(3);
        imm = values[k];
    } else {
        imm = random_i32();
    }

    let dst = random_index(10) as u8;
    let src = random_index(10) as u8;

    EbpfInstr { opcode, dst, src, offset, imm }
}

} // verus!
