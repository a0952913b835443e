//! Gadget construction and querying against the real disassembly engine.

use capstone::arch::riscv::{ArchExtraMode, ArchMode, RiscVInsnDetail};
use capstone::arch::{BuildsCapstone, BuildsCapstoneExtraMode};
use capstone::{Capstone, InsnDetail};

use rvgadget::gadget::{Gadget, GadgetError};
use rvgadget::query::QueryBridge;
use rvgadget::record::InstructionRecord;

// nop (0x00000013) then ret (0x00008067), little-endian
const CODE: [u8; 8] = [0x13, 0x00, 0x00, 0x00, 0x67, 0x80, 0x00, 0x00];

fn engine(detail: bool) -> Capstone {
    Capstone::new()
        .riscv()
        .mode(ArchMode::RiscV64)
        .extra_mode([ArchExtraMode::RiscVC].iter().copied())
        .detail(detail)
        .build()
        .expect("riscv disassembly engine")
}

/// Matches an instruction by its raw byte encoding.
struct BytesQuery(Vec<u8>);

impl QueryBridge for BytesQuery {
    fn is_satisfied<'a>(
        &self,
        ins: &InstructionRecord,
        _detail: &InsnDetail<'a>,
        _arch_detail: &RiscVInsnDetail<'a>,
    ) -> bool {
        ins.bytes == self.0
    }
}

#[test]
fn create_copies_the_decoded_window() {
    let cs = engine(true);
    let insns = cs.disasm_all(&CODE, 0x1000).expect("disassembly");
    let g = Gadget::create(&cs, insns).expect("gadget");
    let records = g.records();
    assert_eq!(records.len(), 2);
    assert_eq!(records[0].address, 0x1000);
    assert_eq!(records[0].bytes, vec![0x13, 0x00, 0x00, 0x00]);
    assert_eq!(records[1].address, 0x1004);
    assert_eq!(records[1].bytes, vec![0x67, 0x80, 0x00, 0x00]);
    assert!(!records[1].mnemonic.is_empty());
}

#[test]
fn create_hashes_independently_of_the_address() {
    let cs = engine(true);
    let at_1000 = cs.disasm_all(&CODE, 0x1000).expect("disassembly");
    let at_2000 = cs.disasm_all(&CODE, 0x2000).expect("disassembly");
    let g1 = Gadget::create(&cs, at_1000).expect("gadget");
    let g2 = Gadget::create(&cs, at_2000).expect("gadget");
    assert_eq!(g1.hash(), g2.hash());
    assert!(g1.equals(&g2));
    assert!(g1 == g2);
}

#[test]
fn create_fails_when_the_engine_gives_no_detail() {
    let cs = engine(false);
    let insns = cs.disasm_all(&CODE, 0x1000).expect("disassembly");
    let r = Gadget::create(&cs, insns);
    assert_eq!(r.err(), Some(GadgetError::DecodeDetailUnavailable));
}

#[test]
fn create_rejects_an_empty_window() {
    let cs = engine(true);
    let insns = cs.disasm_all(&[], 0x1000).expect("disassembly");
    let r = Gadget::create(&cs, insns);
    assert_eq!(r.err(), Some(GadgetError::EmptyInstructionStream));
}

#[test]
fn a_gadget_whose_second_instruction_matches_satisfies_the_query() {
    let cs = engine(true);
    let insns = cs.disasm_all(&CODE, 0x1000).expect("disassembly");
    let g = Gadget::create(&cs, insns).expect("gadget");
    // only the 2nd instruction (ret) carries these bytes
    assert!(g.satisfies_query(&cs, &BytesQuery(vec![0x67, 0x80, 0x00, 0x00])));
}

#[test]
fn a_gadget_with_no_matching_instruction_does_not_satisfy_the_query() {
    let cs = engine(true);
    let insns = cs.disasm_all(&CODE, 0x1000).expect("disassembly");
    let g = Gadget::create(&cs, insns).expect("gadget");
    assert!(!g.satisfies_query(&cs, &BytesQuery(vec![0xff, 0xff, 0xff, 0xff])));
}
