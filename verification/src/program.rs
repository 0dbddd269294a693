//! Program assembly: a fixed number of generated, encoded instructions plus
//! the mandatory terminal exit instruction.

use vstd::prelude::*;
use vstd::bytes::{lemma_auto_spec_u64_to_from_le_bytes, spec_u64_from_le_bytes};
use crate::catalog::{bitswap_table_spec, branch_table_spec, opcode_table_spec};
use crate::generator::{generate_random_instr, instr_ok, offset_signed};
use crate::instr::{
    encode_bytes, encode_word, lemma_word_fields, word_dst, word_imm, word_offset, word_opcode,
    word_src, EbpfBytecode, EbpfInstr,
};

verus! {

/// The fixed terminal instruction: exit, with every other field zero.
pub open spec fn exit_record() -> EbpfInstr {
    EbpfInstr { opcode: 0x95, dst: 0, src: 0, offset: 0, imm: 0 }
}

/// Builds the terminal exit instruction record.
pub fn exit_instr() -> (r: EbpfInstr)
    ensures
        r == exit_record(),
{
    EbpfInstr::new(0x95, 0, 0, 0, 0)
}

/// Structural validity of one encoded slot at `position` in a program of
/// `program_length` slots, read back out of its instruction word: the opcode
/// is a catalog member, a branch-class offset lands inside the program, a
/// bit-swap-class immediate is 16, 32 or 64, and both register fields are
/// below 10.
pub open spec fn slot_ok(bytes: Seq<u8>, position: int, program_length: int) -> bool {
    let w = spec_u64_from_le_bytes(bytes);
    &&& bytes.len() == 8
    &&& opcode_table_spec().contains(word_opcode(w))
    &&& (branch_table_spec().contains(word_opcode(w)) ==> 0 <= position + offset_signed(
        word_offset(w),
    ) < program_length)
    &&& (bitswap_table_spec().contains(word_opcode(w)) ==> (word_imm(w) == 16 || word_imm(w) == 32
        || word_imm(w) == 64))
    &&& word_dst(w) < 10
    &&& word_src(w) < 10
}

/// A well-formed program of `count` generated instructions: `count + 1`
/// encoded slots, every generated slot structurally valid for its position,
/// and the last slot exactly the encoded exit instruction.
pub open spec fn program_ok(p: Seq<EbpfBytecode>, count: int) -> bool {
    &&& p.len() == count + 1
    &&& (forall|j: int| 0 <= j < count ==> slot_ok(#[trigger] p[j]@, j, count + 1))
    &&& p[count]@ == encode_bytes(exit_record())
}

/// Encoding a structurally valid record gives a structurally valid slot.
pub proof fn lemma_slot_ok_of_instr(r: EbpfInstr, position: int, program_length: int)
    requires
        instr_ok(r, position, program_length),
    ensures
        slot_ok(encode_bytes(r), position, program_length),
{
    lemma_auto_spec_u64_to_from_le_bytes();
    lemma_word_fields(r);
    let d = r.dst;
    let s = r.src;
    assert(d < 16 ==> (d & 0xF) == d) by (bit_vector);
    assert(s < 16 ==> (s & 0xF) == s) by (bit_vector);
    assert(spec_u64_from_le_bytes(encode_bytes(r)) == encode_word(r));
}

/// Generates and encodes `count` instructions at positions `0..count`, then
/// appends the fixed terminal exit instruction. The result always has
/// `count + 1` slots and ends in the exit word; generation cannot fail.
pub fn build_program(count: usize) -> (p: Vec<EbpfBytecode>)
    requires
        count + 1 <= 0x8000,
    ensures
        program_ok(p@, count as int),
{
    let mut p: Vec<EbpfBytecode> = Vec::new();
    let mut j: usize = 0;
    while j < count
        invariant
            j <= count,
            count + 1 <= 0x8000,
            p@.len() == j,
            forall|k: int| 0 <= k < j ==> slot_ok(#[trigger] p@[k]@, k, count as int + 1),
        decreases count - j,
    {
        let r = generate_random_instr(j, count + 1);
        let b = r.encode();
        proof {
            lemma_slot_ok_of_instr(r, j as int, count as int + 1);
        }
        p.push(b);
        j += 1;
    }
    let terminal = exit_instr().encode();
    p.push(terminal);
    p
}

/// The raw byte buffer of a program: the slots' bytes concatenated in order.
pub open spec fn flat_bytes(p: Seq<EbpfBytecode>) -> Seq<u8>
    decreases p.len(),
{
    if p.len() == 0 {
        Seq::empty()
    } else {
        flat_bytes(p.drop_last()) + p.last()@
    }
}

/// Flattens a program into the contiguous buffer the target machine loads.
pub fn program_bytes(p: &Vec<EbpfBytecode>) -> (v: Vec<u8>)
    ensures
        v@ == flat_bytes(p@),
{
    let mut v: Vec<u8> = Vec::new();
    let mut i: usize = 0;
    while i < p.len()
        invariant
            i <= p@.len(),
            v@ == flat_bytes(p@.take(i as int)),
        decreases p@.len() - i,
    {
        v.extend_from_slice(p[i].bytes.as_slice());
        proof {
            assert(p@.take(i as int + 1).drop_last() =~= p@.take(i as int));
            assert(p@.take(i as int + 1).last() == p@[i as int]);
            assert(v@ =~= flat_bytes(p@.take(i as int)) + p@[i as int]@);
            assert(flat_bytes(p@.take(i as int + 1)) == flat_bytes(p@.take(i as int))
                + p@[i as int]@);
        }
        i += 1;
    }
    proof {
        assert(p@.take(p@.len() as int) =~= p@);
    }
    v
}

} // verus!
