//! The leaf data unit: an owned copy of one decoded instruction.

use vstd::prelude::*;

verus! {

/// Mathematical model of one decoded instruction.
pub ghost struct RecordModel {
    pub address: u64,
    pub bytes: Seq<u8>,
    pub mnemonic: Seq<char>,
    pub operands: Seq<char>,
}

/// One decoded machine instruction, deep-copied out of the decoder's
/// transient buffer so that it outlives the decoding pass: its address,
/// raw bytes, mnemonic text and operand text.
pub struct InstructionRecord {
    pub address: u64,
    pub bytes: Vec<u8>,
    pub mnemonic: String,
    pub operands: String,
}

impl View for InstructionRecord {
    type V = RecordModel;

    open spec fn view(&self) -> RecordModel {
        RecordModel {
            address: self.address,
            bytes: self.bytes@,
            mnemonic: self.mnemonic@,
            operands: self.operands@,
        }
    }
}

/// The models of a sequence of records.
pub open spec fn models(records: Seq<InstructionRecord>) -> Seq<RecordModel> {
    records.map_values(|r: InstructionRecord| r@)
}

} // verus!
