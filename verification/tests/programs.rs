use ebpf_fuzzer::catalog::{is_bitswap_opcode, is_branch_opcode, is_catalog_opcode};
use ebpf_fuzzer::generator::branch_target_in_range;
use ebpf_fuzzer::oracle::{scratch_region, STACK_SIZE};
use ebpf_fuzzer::program::{build_program, exit_instr, program_bytes};

fn exit_bytes() -> Vec<u8> {
    vec![0x95, 0x00, 0x00, 0x00, 0x00, 0x00, 0x00, 0x00]
}

#[test]
fn empty_program_is_only_the_exit_instruction() {
    let p = build_program(0);
    assert_eq!(p.len(), 1);
    assert_eq!(p[0].bytes, exit_bytes());
}

#[test]
fn every_program_ends_with_the_exit_word() {
    for count in 1..6 {
        let p = build_program(count);
        assert_eq!(p.len(), count + 1);
        assert_eq!(p[count].bytes, exit_bytes());
    }
}

#[test]
fn exit_instruction_encodes_to_the_fixed_exit_word() {
    assert_eq!(exit_instr().encode().bytes, exit_bytes());
}

#[test]
fn program_bytes_concatenates_the_slots_in_order() {
    let p = build_program(0);
    assert_eq!(program_bytes(&p), exit_bytes());

    let p = build_program(2);
    let flat = program_bytes(&p);
    assert_eq!(flat.len(), 8 * 3);
    let mut expected = Vec::new();
    for slot in &p {
        expected.extend_from_slice(&slot.bytes);
    }
    assert_eq!(flat, expected);
}

#[test]
fn scratch_region_is_zero_filled_at_the_fixed_size() {
    let region = scratch_region();
    assert_eq!(region.len(), STACK_SIZE);
    assert_eq!(STACK_SIZE, 8092);
    assert!(region.iter().all(|&b| b == 0));
}

#[test]
fn generated_slots_decode_to_valid_records() {
    for round in 0..200 {
        let count = 1 + round % 4;
        let p = build_program(count);
        for j in 0..count {
            let d = p[j].decode();
            assert!(is_catalog_opcode(d.opcode));
            assert!(d.dst < 10);
            assert!(d.src < 10);
            if is_branch_opcode(d.opcode) {
                assert!(branch_target_in_range(j, d.offset, count + 1));
            }
            if is_bitswap_opcode(d.opcode) {
                assert!(d.imm == 16 || d.imm == 32 || d.imm == 64);
            }
        }
    }
}
