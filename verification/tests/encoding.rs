use ebpf_fuzzer::instr::EbpfInstr;

#[test]
fn encoding_packs_the_declared_bit_layout() {
    let r = EbpfInstr::new(0x07, 1, 2, 3, 4);
    let b = r.encode();
    // bits[0:8) opcode, bits[8:12) src, bits[12:16) dst,
    // bits[16:32) offset, bits[32:64) immediate, little-endian.
    assert_eq!(b.bytes, vec![0x07, 0x12, 0x03, 0x00, 0x04, 0x00, 0x00, 0x00]);
}

#[test]
fn round_trip_reproduces_masked_fields() {
    let r = EbpfInstr::new(0x07, 0xFF, 0xAB, 0x1234, -1);
    let d = r.encode().decode();
    assert_eq!(d.opcode, 0x07);
    assert_eq!(d.dst, 0x0F);
    assert_eq!(d.src, 0x0B);
    assert_eq!(d.offset, 0x1234);
    assert_eq!(d.imm, -1);
}

#[test]
fn round_trip_is_exact_on_in_range_fields() {
    let r = EbpfInstr::new(0xb7, 9, 3, 0x8001, -2147483648);
    let d = r.encode().decode();
    assert_eq!(d, r);
}

#[test]
fn bitswap_immediate_32_reads_back_as_32() {
    let r = EbpfInstr::new(0xd4, 5, 6, 0, 32);
    let d = r.encode().decode();
    assert_eq!(d.imm, 32);
}

#[test]
fn negative_offset_keeps_its_bit_pattern() {
    let r = EbpfInstr::new(0x05, 0, 0, 0xFFFE, 0);
    let d = r.encode().decode();
    assert_eq!(d.offset, 0xFFFE);
}
