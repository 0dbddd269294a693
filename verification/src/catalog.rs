//! The instruction catalog: the universe of opcodes the generator samples
//! from, and its two constrained subsets (branch-class and bit-swap-class).
//!
//! The duplicate entries in the tables are deliberate: sampling an index
//! uniformly makes the duplicated opcodes proportionally more likely, so the
//! tables double as an implicit weight table and are kept verbatim.

use vstd::prelude::*;

verus! {

/// The full opcode catalog, duplicates included, in sampling order.
pub open spec fn opcode_table_spec() -> Seq<u8> {
    seq![
        0x07u8, 0x0f, 0x17, 0x1f, 0x27, 0x2f, 0x37, 0x3f, 0x47, 0x4f,
        0x57, 0x5f, 0x67, 0x6f, 0x77, 0x7f, 0x87, 0x97, 0x9f, 0xa7,
        0xaf, 0xb7, 0xbf, 0xc7, 0xcf, 0x04, 0x0c, 0x14, 0x1c, 0x24,
        0x2c, 0x34, 0x3c, 0x44, 0x4c, 0x54, 0x5c, 0x64, 0x6c, 0x74,
        0x7c, 0x84, 0x94, 0x9c, 0xa4, 0xac, 0xb4, 0xbc, 0xc4, 0xcc,
        0xd4, 0xd4, 0xd4, 0xdc, 0xdc, 0xdc, 0x18, 0x20, 0x28, 0x30,
        0x38, 0x40, 0x48, 0x50, 0x58, 0x61, 0x69, 0x71, 0x79, 0x62,
        0x6a, 0x72, 0x7a, 0x63, 0x6b, 0x73, 0x7b, 0x05, 0x15, 0x1d,
        0x25, 0x2d, 0x35, 0x3d, 0xa5, 0xad, 0xb5, 0xbd, 0x45, 0x4d,
        0x55, 0x5d, 0x65, 0x6d, 0x75, 0x7d, 0xc5, 0xcd, 0xd5, 0xdd,
        0x85, 0x95,
    ]
}

/// The branch-class opcodes: their offset field is a relative jump target.
pub open spec fn branch_table_spec() -> Seq<u8> {
    seq![
        0x05u8, 0x15, 0x1d, 0x25, 0x2d, 0x35, 0x3d, 0xa5, 0xad, 0xb5,
        0xbd, 0x45, 0x4d, 0x55, 0x5d, 0x65, 0x6d, 0x75, 0x7d, 0xc5,
        0xcd, 0xd5, 0xdd,
    ]
}

/// The bit-swap-class opcodes: their immediate field selects a bit width.
/// The repetitions bias sampling exactly as the full catalog does.
pub open spec fn bitswap_table_spec() -> Seq<u8> {
    seq![
        0xd4u8, 0xd4, 0xd4, 0xdc, 0xdc, 0xdc,
    ]
}

/// The catalog as an indexable table, equal to its specification entry for
/// entry so that sampling by index stays inside the catalog.
pub fn opcode_table() -> (v: Vec<u8>)
    ensures
        v@ == opcode_table_spec(),
{
    let v: Vec<u8> = vec![
        0x07u8, 0x0f, 0x17, 0x1f, 0x27, 0x2f, 0x37, 0x3f, 0x47, 0x4f,
        0x57, 0x5f, 0x67, 0x6f, 0x77, 0x7f, 0x87, 0x97, 0x9f, 0xa7,
        0xaf, 0xb7, 0xbf, 0xc7, 0xcf, 0x04, 0x0c, 0x14, 0x1c, 0x24,
        0x2c, 0x34, 0x3c, 0x44, 0x4c, 0x54, 0x5c, 0x64, 0x6c, 0x74,
        0x7c, 0x84, 0x94, 0x9c, 0xa4, 0xac, 0xb4, 0xbc, 0xc4, 0xcc,
        0xd4, 0xd4, 0xd4, 0xdc, 0xdc, 0xdc, 0x18, 0x20, 0x28, 0x30,
        0x38, 0x40, 0x48, 0x50, 0x58, 0x61, 0x69, 0x71, 0x79, 0x62,
        0x6a, 0x72, 0x7a, 0x63, 0x6b, 0x73, 0x7b, 0x05, 0x15, 0x1d,
        0x25, 0x2d, 0x35, 0x3d, 0xa5, 0xad, 0xb5, 0xbd, 0x45, 0x4d,
        0x55, 0x5d, 0x65, 0x6d, 0x75, 0x7d, 0xc5, 0xcd, 0xd5, 0xdd,
        0x85, 0x95,
    ];
    proof {
        assert(v@ =~= opcode_table_spec());
    }
    v
}

/// The branch-class subset as an indexable table.
pub fn branch_table() -> (v: Vec<u8>)
    ensures
        v@ == branch_table_spec(),
{
    let v: Vec<u8> = vec![
        0x05u8, 0x15, 0x1d, 0x25, 0x2d, 0x35, 0x3d, 0xa5, 0xad, 0xb5,
        0xbd, 0x45, 0x4d, 0x55, 0x5d, 0x65, 0x6d, 0x75, 0x7d, 0xc5,
        0xcd, 0xd5, 0xdd,
    ];
    proof {
        assert(v@ =~= branch_table_spec());
    }
    v
}

/// The bit-swap-class subset as an indexable table.
pub fn bitswap_table() -> (v: Vec<u8>)
    ensures
        v@ == bitswap_table_spec(),
{
    let v: Vec<u8> = vec![
        0xd4u8, 0xd4, 0xd4, 0xdc, 0xdc, 0xdc,
    ];
    proof {
        assert(v@ =~= bitswap_table_spec());
    }
    v
}

/// Linear membership scan, as the generator performs it.
pub fn table_contains(v: &Vec<u8>, x: u8) -> (r: bool)
    ensures
        r == v@.contains(x),
{
    let mut i: usize = 0;
    while i < v.len()
        invariant
            0 <= i <= v@.len(),
            forall|k: int| 0 <= k < i ==> v@[k] != x,
        decreases v@.len() - i,
    {
        if v[i] == x {
            return true;
        }
        i += 1;
    }
    false
}

/// Whether `op` is a member of the full catalog.
pub fn is_catalog_opcode(op: u8) -> (r: bool)
    ensures
        r == opcode_table_spec().contains(op),
{
    let t = opcode_table();
    table_contains(&t, op)
}

/// Whether `op` is branch-class.
pub fn is_branch_opcode(op: u8) -> (r: bool)
    ensures
        r == branch_table_spec().contains(op),
{
    let t = branch_table();
    table_contains(&t, op)
}

/// Whether `op` is bit-swap-class.
pub fn is_bitswap_opcode(op: u8) -> (r: bool)
    ensures
        r == bitswap_table_spec().contains(op),
{
    let t = bitswap_table();
    table_contains(&t, op)
}

} // verus!
