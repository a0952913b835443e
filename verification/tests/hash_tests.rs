//! The content hash: formula values, stream semantics, collisions, and the
//! all-or-nothing construction decision.

use rvgadget::gadget::{Gadget, GadgetError};
use rvgadget::hashing::compute_hash;
use rvgadget::record::InstructionRecord;

fn rec(address: u64, bytes: &[u8], mnemonic: &str, operands: &str) -> InstructionRecord {
    InstructionRecord {
        address,
        bytes: bytes.to_vec(),
        mnemonic: mnemonic.to_string(),
        operands: operands.to_string(),
    }
}

#[test]
fn hash_formula_matches_table() {
    // seed alone for the empty stream
    assert_eq!(compute_hash(&vec![]), 5381);
    // 5381 * 33 + 1
    assert_eq!(compute_hash(&vec![rec(0, &[1], "a", "")]), 177_574);
    // (5381 * 33 + 1) * 33 + 0
    assert_eq!(compute_hash(&vec![rec(0, &[1, 0], "a", "")]), 5_859_942);
}

#[test]
fn hash_runs_over_the_flat_byte_stream() {
    // one two-byte instruction and two one-byte instructions with the same
    // concatenation hash identically
    let joined = compute_hash(&vec![rec(0x40, &[1, 0], "x", "")]);
    let split = compute_hash(&vec![rec(0x80, &[1], "y", ""), rec(0x81, &[0], "z", "")]);
    assert_eq!(joined, split);
}

#[test]
fn hash_ignores_addresses_mnemonics_operands() {
    let a = compute_hash(&vec![rec(0x1000, &[0x13, 0x05], "c.addi", "a0,1")]);
    let b = compute_hash(&vec![rec(0x2000, &[0x13, 0x05], "other", "t0,t1")]);
    assert_eq!(a, b);
}

#[test]
fn gadgets_with_same_bytes_at_different_addresses_are_equal() {
    let g1 = Gadget::assemble(vec![rec(0x1000, &[0x67, 0x80], "ret", "")], &vec![true]).unwrap();
    let g2 = Gadget::assemble(vec![rec(0x2000, &[0x67, 0x80], "ret", "")], &vec![true]).unwrap();
    assert!(g1.equals(&g2));
    assert!(g1 == g2);
    assert_eq!(g1.hash(), g2.hash());
}

#[test]
fn distinct_byte_streams_may_collide_and_then_compare_equal() {
    // a genuine collision of the rolling hash: 1*33 + 0 == 0*33 + 33
    let ga = Gadget::assemble(vec![rec(0, &[1, 0], "a", "")], &vec![true]).unwrap();
    let gb = Gadget::assemble(vec![rec(0, &[0, 33], "b", "")], &vec![true]).unwrap();
    assert_eq!(ga.hash(), 5_859_942);
    assert_eq!(gb.hash(), 5_859_942);
    // the byte streams differ, yet hash-only equality treats them as equal
    assert!(ga.equals(&gb));
    assert!(ga == gb);
}

#[test]
fn different_hashes_compare_unequal() {
    let ga = Gadget::assemble(vec![rec(0, &[1], "a", "")], &vec![true]).unwrap();
    let gb = Gadget::assemble(vec![rec(0, &[2], "a", "")], &vec![true]).unwrap();
    assert!(!ga.equals(&gb));
    assert!(ga != gb);
}

#[test]
fn assemble_fails_when_detail_is_unavailable_for_the_second_of_three() {
    let records = vec![
        rec(0x1000, &[1], "a", ""),
        rec(0x1001, &[2], "b", ""),
        rec(0x1002, &[3], "c", ""),
    ];
    let r = Gadget::assemble(records, &vec![true, false, true]);
    assert_eq!(r.err(), Some(GadgetError::DecodeDetailUnavailable));
}

#[test]
fn assemble_rejects_an_empty_stream() {
    let r = Gadget::assemble(vec![], &vec![]);
    assert_eq!(r.err(), Some(GadgetError::EmptyInstructionStream));
}

#[test]
fn assemble_keeps_exactly_the_given_records() {
    let records = vec![rec(0x1000, &[1, 2], "mv", "a0,a1"), rec(0x1002, &[3], "ret", "")];
    let expected_hash = compute_hash(&records);
    let g = Gadget::assemble(records, &vec![true, true]).unwrap();
    assert_eq!(g.hash(), expected_hash);
    let held = g.records();
    assert_eq!(held.len(), 2);
    assert_eq!(held[0].address, 0x1000);
    assert_eq!(held[0].bytes, vec![1, 2]);
    assert_eq!(held[0].mnemonic, "mv");
    assert_eq!(held[0].operands, "a0,a1");
    assert_eq!(held[1].mnemonic, "ret");
}
