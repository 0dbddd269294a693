use ebpf_fuzzer::catalog::{is_bitswap_opcode, is_branch_opcode, is_catalog_opcode};
use ebpf_fuzzer::generator::{branch_target_in_range, generate_random_instr};

#[test]
fn generated_opcodes_are_catalog_members() {
    for round in 0..500 {
        let position = round % 3;
        let r = generate_random_instr(position, 4);
        assert!(is_catalog_opcode(r.opcode));
    }
}

#[test]
fn branch_offsets_land_inside_the_program() {
    let program_length: usize = 4;
    for round in 0..1000 {
        let position = round % 3;
        let r = generate_random_instr(position, program_length);
        if is_branch_opcode(r.opcode) {
            assert!(branch_target_in_range(position, r.offset, program_length));
            let signed = if r.offset < 0x8000 {
                r.offset as i64
            } else {
                r.offset as i64 - 0x10000
            };
            let landing = position as i64 + signed;
            assert!(0 <= landing && landing < program_length as i64);
        }
    }
}

#[test]
fn bitswap_immediates_select_a_bit_width() {
    let mut seen = 0;
    for round in 0..3000 {
        let position = round % 3;
        let r = generate_random_instr(position, 4);
        if is_bitswap_opcode(r.opcode) {
            seen += 1;
            assert!(r.imm == 16 || r.imm == 32 || r.imm == 64);
        }
    }
    assert!(seen > 0, "no bit-swap opcode sampled in 3000 draws");
}

#[test]
fn register_ids_stay_below_ten_and_the_field_ceiling() {
    for round in 0..1000 {
        let position = round % 3;
        let r = generate_random_instr(position, 4);
        assert!(r.dst < 10);
        assert!(r.src < 10);
        assert!(r.dst < 16);
        assert!(r.src < 16);
    }
}

#[test]
fn generator_reaches_the_terminal_slot_with_the_max_forward_offset() {
    // At position 0 of a 4-slot program the draw domain is [0, 3]; offset 3
    // lands exactly on the terminal exit slot and must occur and be accepted.
    let mut landed_on_exit = false;
    for _ in 0..20000 {
        let r = generate_random_instr(0, 4);
        if is_branch_opcode(r.opcode) {
            assert!(branch_target_in_range(0, r.offset, 4));
            if r.offset == 3 {
                landed_on_exit = true;
            }
        }
    }
    assert!(landed_on_exit, "no branch drew the maximum forward offset in 20000 draws");
}

#[test]
fn max_forward_branch_lands_on_the_terminal_slot() {
    // Position 0 of a 4-slot program: offset 3 lands exactly on the exit
    // instruction at index 3 and must be accepted.
    assert!(branch_target_in_range(0, 3, 4));
    // One past the terminal slot is out of range.
    assert!(!branch_target_in_range(0, 4, 4));
    // A backward offset from position 0 leaves the program.
    assert!(!branch_target_in_range(0, 0xFFFF, 4));
    // The same backward offset from position 1 lands on index 0.
    assert!(branch_target_in_range(1, 0xFFFF, 4));
}
