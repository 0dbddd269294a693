//! Instruction records and their fixed 8-byte binary encoding.
//!
//! An instruction word packs its fields into a 64-bit value — bits `[0, 8)`
//! opcode, `[8, 12)` src, `[12, 16)` dst, `[16, 32)` offset, `[32, 64)`
//! immediate — stored little-endian as an 8-byte buffer.

use vstd::prelude::*;
use vstd::bytes::{
    lemma_auto_spec_u64_to_from_le_bytes, spec_u64_from_le_bytes, spec_u64_to_le_bytes,
    u64_from_le_bytes, u64_to_le_bytes,
};

verus! {

/// One decoded instruction of the target machine.
///
/// Register ids are generated from `[0, 10)` even though the encoded field is
/// 4 bits wide (`[0, 16)`); the narrower range is deliberate and kept as-is.
#[derive(Clone, Copy, PartialEq, Eq, Debug, Structural)]
pub struct EbpfInstr {
    pub opcode: u8,
    pub dst: u8,
    pub src: u8,
    pub offset: u16,
    pub imm: i32,
}

impl EbpfInstr {
    /// Builds an instruction record from its five fields, unchanged.
    pub fn new(opcode: u8, dst: u8, src: u8, offset: u16, imm: i32) -> (r: Self)
        ensures
            r == (EbpfInstr { opcode, dst, src, offset, imm }),
    {
        Self { opcode, dst, src, offset, imm }
    }

    /// Packs this record into its 8-byte little-endian instruction word.
    pub fn encode(&self) -> (b: EbpfBytecode)
        ensures
            b@ == encode_bytes(*self),
    {
        let w = self.encode_word_exec();
        let bytes = u64_to_le_bytes(w);
        EbpfBytecode { bytes }
    }

    /// Packs the fields into the 64-bit instruction word, masking each field
    /// to its declared width before shifting.
    pub fn encode_word_exec(&self) -> (w: u64)
        ensures
            w == encode_word(*self),
    {
        (((self.imm as u64) & 0xFFFF_FFFF) << 32)
            | (((self.offset as u64) & 0xFFFF) << 16)
            | (((self.src as u64) & 0xF) << 8)
            | (((self.dst as u64) & 0xF) << 12)
            | ((self.opcode as u64) & 0xFF)
    }
}

/// The 64-bit instruction word of a record: each field masked to its width,
/// then shifted to its position.
pub open spec fn encode_word(r: EbpfInstr) -> u64 {
    (((r.imm as u64) & 0xFFFF_FFFF) << 32)
        | (((r.offset as u64) & 0xFFFF) << 16)
        | (((r.src as u64) & 0xF) << 8)
        | (((r.dst as u64) & 0xF) << 12)
        | ((r.opcode as u64) & 0xFF)
}

/// The 8-byte little-endian buffer of a record's instruction word.
pub open spec fn encode_bytes(r: EbpfInstr) -> Seq<u8> {
    spec_u64_to_le_bytes(encode_word(r))
}

/// The opcode field of an instruction word: bits `[0, 8)`.
pub open spec fn word_opcode(w: u64) -> u8 {
    (w & 0xFF) as u8
}

/// The src register field of an instruction word: bits `[8, 12)`.
pub open spec fn word_src(w: u64) -> u8 {
    ((w >> 8) & 0xF) as u8
}

/// The dst register field of an instruction word: bits `[12, 16)`.
pub open spec fn word_dst(w: u64) -> u8 {
    ((w >> 12) & 0xF) as u8
}

/// The offset field of an instruction word: bits `[16, 32)`.
pub open spec fn word_offset(w: u64) -> u16 {
    ((w >> 16) & 0xFFFF) as u16
}

/// The immediate field of an instruction word: bits `[32, 64)`.
pub open spec fn word_imm(w: u64) -> u32 {
    ((w >> 32) & 0xFFFF_FFFF) as u32
}

/// The record read back out of an instruction word.
pub open spec fn instr_of_word(w: u64) -> EbpfInstr {
    EbpfInstr {
        opcode: word_opcode(w),
        dst: word_dst(w),
        src: word_src(w),
        offset: word_offset(w),
        imm: word_imm(w) as i32,
    }
}

/// The record read back out of an 8-byte little-endian buffer.
pub open spec fn decode_spec(bytes: Seq<u8>) -> EbpfInstr {
    instr_of_word(spec_u64_from_le_bytes(bytes))
}

/// A record with dst and src masked to the 4 bits the encoding keeps; the
/// other fields already fit their encoded widths exactly.
pub open spec fn masked(r: EbpfInstr) -> EbpfInstr {
    EbpfInstr {
        opcode: r.opcode,
        dst: (r.dst & 0xF) as u8,
        src: (r.src & 0xF) as u8,
        offset: r.offset,
        imm: r.imm,
    }
}

/// One encoded instruction: the 8-byte little-endian instruction word.
#[derive(Clone, Debug, PartialEq, Eq)]
pub struct EbpfBytecode {
    pub bytes: Vec<u8>,
}

impl View for EbpfBytecode {
    type V = Seq<u8>;

    open spec fn view(&self) -> Seq<u8> {
        self.bytes@
    }
}

impl EbpfBytecode {
    /// Reads the five fields back out of the instruction word.
    pub fn decode(&self) -> (r: EbpfInstr)
        requires
            self@.len() == 8,
        ensures
            r == decode_spec(self@),
    {
        let w = u64_from_le_bytes(self.bytes.as_slice());
        EbpfInstr {
            opcode: (w & 0xFF) as u8,
            dst: ((w >> 12) & 0xF) as u8,
            src: ((w >> 8) & 0xF) as u8,
            offset: ((w >> 16) & 0xFFFF) as u16,
            imm: (((w >> 32) & 0xFFFF_FFFF) as u32) as i32,
        }
    }
}

/// Extracting each field of a packed word gives back the field that went in,
/// masked to its declared width.
pub proof fn lemma_word_fields(r: EbpfInstr)
    ensures
        word_opcode(encode_word(r)) == r.opcode,
        word_dst(encode_word(r)) == r.dst & 0xF,
        word_src(encode_word(r)) == r.src & 0xF,
        word_offset(encode_word(r)) == r.offset,
        word_imm(encode_word(r)) == r.imm as u32,
        word_imm(encode_word(r)) as i32 == r.imm,
{
    let op = r.opcode;
    let d = r.dst;
    let s = r.src;
    let off = r.offset;
    let im = r.imm;
    let w = encode_word(r);
    assert(w == (((im as u64) & 0xFFFF_FFFF) << 32) | (((off as u64) & 0xFFFF) << 16)
        | (((s as u64) & 0xF) << 8) | (((d as u64) & 0xF) << 12) | ((op as u64) & 0xFF));
    assert({
        let x = (((im as u64) & 0xFFFF_FFFF) << 32) | (((off as u64) & 0xFFFF) << 16)
            | (((s as u64) & 0xF) << 8) | (((d as u64) & 0xF) << 12) | ((op as u64) & 0xFF);
        &&& (x & 0xFF) as u8 == op
        &&& ((x >> 12) & 0xF) as u8 == d & 0xF
        &&& ((x >> 8) & 0xF) as u8 == s & 0xF
        &&& ((x >> 16) & 0xFFFF) as u16 == off
        &&& ((x >> 32) & 0xFFFF_FFFF) as u32 == im as u32
        &&& (im as u32) as i32 == im
    }) by (bit_vector);
}

/// Round-trip law: decoding an encoded record reproduces the record with each
/// field masked to its declared width.
pub proof fn lemma_encode_decode(r: EbpfInstr)
    ensures
        decode_spec(encode_bytes(r)) == masked(r),
{
    lemma_auto_spec_u64_to_from_le_bytes();
    assert(spec_u64_from_le_bytes(spec_u64_to_le_bytes(encode_word(r))) == encode_word(r));
    lemma_word_fields(r);
}

} // verus!
