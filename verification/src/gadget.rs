//! The gadget: an immutable, hashable, queryable unit built from one
//! contiguous run of decoded instructions ending at a candidate address.

use vstd::prelude::*;

use crate::decode;
use crate::hashing::{compute_hash, gadget_hash};
use crate::query::QueryBridge;
use crate::record::{models, InstructionRecord, RecordModel};
use crate::render::{block_output_ok, inline_output_ok, render_block, render_inline};

verus! {

/// The two presentation modes of a gadget.
#[derive(Clone, Copy)]
pub enum OutputMode {
    Inline,
    Block,
}

/// Why gadget construction failed. Construction is all-or-nothing: on any
/// failure no partial gadget is returned.
#[derive(Clone, Copy, Debug, PartialEq, Eq, Structural)]
pub enum GadgetError {
    /// Extended decode detail could not be retrieved for some instruction.
    DecodeDetailUnavailable,
    /// The instruction stream was empty. A gadget owns a non-empty
    /// instruction sequence; the empty case is rejected at construction.
    EmptyInstructionStream,
}

/// Mathematical model of a gadget: the records of its instructions in
/// stream order, and its 32-bit content hash.
pub ghost struct GadgetModel {
    pub records: Seq<RecordModel>,
    pub hash: u32,
}

/// An immutable gadget: an ordered, non-empty sequence of owned
/// instruction records plus the content hash derived from their raw bytes.
/// By convention the last instruction is the control-transfer terminator;
/// rendering treats it specially. Created once through [`Gadget::create`]
/// or [`Gadget::assemble`], never mutated afterward.
pub struct Gadget<'a> {
    insns: Vec<capstone::OwnedInsn<'a>>,
    records: Vec<InstructionRecord>,
    hash: u32,
}

impl<'a> View for Gadget<'a> {
    type V = GadgetModel;

    closed spec fn view(&self) -> GadgetModel {
        GadgetModel { records: models(self.records@), hash: self.hash }
    }
}

impl<'a> Gadget<'a> {
    /// Well-formedness: the instruction sequence is non-empty and the hash
    /// is the content hash of the records' byte stream.
    pub open spec fn wf(self) -> bool {
        self@.records.len() > 0 && self@.hash == gadget_hash(self@.records)
    }

    #[verifier::type_invariant]
    spec fn type_inv(self) -> bool {
        &&& self.wf()
        &&& (self.insns@.len() == 0 || self.insns@.len() == self.records@.len())
    }

    /// Builds a gadget from one candidate window of decoded instructions:
    /// deep-copies every instruction out of the decoder's buffer, demands
    /// extended decode detail for each — any failure aborts the whole
    /// construction — and derives the content hash from the raw bytes in
    /// stream order. The hash depends on the byte content alone, never on
    /// addresses (see `crate::hashing`).
    pub fn create(cs: &capstone::Capstone, insns: capstone::Instructions<'a>) -> (r: Result<
        Gadget<'a>,
        GadgetError,
    >)
        ensures
            r matches Ok(g) ==> g.wf(),
    {
        let owned = decode::owned_insns(insns);
        let mut records: Vec<InstructionRecord> = Vec::new();
        let mut i: usize = 0;
        while i < owned.len()
            invariant
                i <= owned@.len(),
                records@.len() == i,
            decreases owned@.len() - i,
        {
            if decode::fetch_detail(cs, &owned[i]).is_none() {
                return Err(GadgetError::DecodeDetailUnavailable);
            }
            records.push(decode::record_of(&owned[i]));
            i = i + 1;
        }
        if records.len() == 0 {
            return Err(GadgetError::EmptyInstructionStream);
        }
        let hash = compute_hash(&records);
        Ok(Gadget { insns: owned, records, hash })
    }

    /// The construction decision from plain values: the records of one
    /// candidate window and, for each, whether extended decode detail was
    /// obtainable. All-or-nothing, as in [`Gadget::create`]: any
    /// unobtainable detail fails the whole construction, an empty window is
    /// rejected, and otherwise the gadget carries exactly the given records
    /// with their content hash.
    pub fn assemble(records: Vec<InstructionRecord>, detail_ok: &Vec<bool>) -> (r: Result<
        Gadget<'a>,
        GadgetError,
    >)
        requires
            detail_ok@.len() == records@.len(),
        ensures
            records@.len() == 0 ==> (r matches Err(e) && e == GadgetError::EmptyInstructionStream),
            records@.len() > 0 && (exists|i: int|
                0 <= i < detail_ok@.len() && !(#[trigger] detail_ok@[i])) ==> (r matches Err(e)
                && e == GadgetError::DecodeDetailUnavailable),
            records@.len() > 0 && (forall|i: int|
                0 <= i < detail_ok@.len() ==> #[trigger] detail_ok@[i]) ==> (r matches Ok(g)
                && g@.records == models(records@) && g@.hash == gadget_hash(models(records@))
                && g.wf()),
    {
        let mut i: usize = 0;
        while i < detail_ok.len()
            invariant
                detail_ok@.len() == records@.len(),
                i <= detail_ok@.len(),
                forall|j: int| 0 <= j < i ==> #[trigger] detail_ok@[j],
            decreases detail_ok@.len() - i,
        {
            if !detail_ok[i] {
                return Err(GadgetError::DecodeDetailUnavailable);
            }
            i = i + 1;
        }
        if records.len() == 0 {
            return Err(GadgetError::EmptyInstructionStream);
        }
        let hash = compute_hash(&records);
        Ok(Gadget { insns: Vec::new(), records, hash })
    }

    /// Hash-only equality: two gadgets are equal exactly when their content
    /// hashes are. This is intentionally coarser than content equality —
    /// distinct byte streams whose hashes collide compare equal, a
    /// deliberate deduplication tradeoff; callers needing exact-content
    /// deduplication must compare the instruction sequences as well.
    pub fn equals<'b>(&self, other: &Gadget<'b>) -> (r: bool)
        ensures
            r == (self@.hash == other@.hash),
    {
        self.hash == other.hash
    }

    /// The 32-bit content hash.
    pub fn hash(&self) -> (r: u32)
        ensures
            r == self@.hash,
    {
        self.hash
    }

    /// The owned instruction records, in stream order.
    pub fn records(&self) -> (r: &Vec<InstructionRecord>)
        ensures
            models(r@) == self@.records,
            r@.len() > 0,
    {
        proof {
            use_type_invariant(self);
        }
        &self.records
    }

    /// Renders the gadget in the given mode: a pure function of its data.
    /// In both modes the terminator's text, and only it, carries the
    /// emphasis; every mnemonic displays canonicalized.
    pub fn render(&self, mode: OutputMode) -> (out: String)
        ensures
            mode matches OutputMode::Block ==> block_output_ok(self@.records, out@),
            mode matches OutputMode::Inline ==> inline_output_ok(self@.records, out@),
    {
        proof {
            use_type_invariant(self);
        }
        match mode {
            OutputMode::Block => render_block(&self.records),
            OutputMode::Inline => render_inline(&self.records),
        }
    }

    /// Query satisfaction: scans the instructions in order, re-fetching
    /// extended decode detail from the decoder for each (detail is not
    /// retained at construction); an instruction whose detail and RISC-V
    /// detail are present is put to the query predicate, and the scan stops
    /// at the first satisfied instruction — the gadget matches when any
    /// constituent instruction does. Missing detail skips the instruction;
    /// it is not an error here. Which instructions match rests with the
    /// decoder and the external query component; the gadget-level rule over
    /// the per-instruction outcomes is `crate::query::any_satisfied`.
    pub fn satisfies_query<Q: QueryBridge>(&self, cs: &capstone::Capstone, q: &Q) -> bool {
        proof {
            use_type_invariant(self);
        }
        let mut i: usize = 0;
        while i < self.insns.len()
            invariant
                i <= self.insns@.len(),
                self.insns@.len() == 0 || self.insns@.len() == self.records@.len(),
            decreases self.insns@.len() - i,
        {
            if let Some(d) = decode::fetch_detail(cs, &self.insns[i]) {
                let ad = decode::arch_detail_of(&d);
                if let Some(rv) = decode::riscv_detail_of(&ad) {
                    if q.is_satisfied(&self.records[i], &d, rv) {
                        return true;
                    }
                }
            }
            i = i + 1;
        }
        false
    }
}

/// Law: two well-formed gadgets whose instructions carry the same raw
/// bytes, instruction for instruction, have equal content hashes — and so
/// compare equal under hash-only equality — whatever their addresses,
/// mnemonics or operand text.
pub proof fn lemma_same_bytes_gadgets_equal(a: GadgetModel, b: GadgetModel)
    requires
        a.hash == gadget_hash(a.records),
        b.hash == gadget_hash(b.records),
        a.records.len() == b.records.len(),
        forall|i: int| 0 <= i < a.records.len() ==> a.records[i].bytes == b.records[i].bytes,
    ensures
        a.hash == b.hash,
{
    crate::hashing::lemma_stream_bytes_ignores_addresses(a.records, b.records);
}

impl<'a> PartialEq for Gadget<'a> {
    /// Hash-only equality, as [`Gadget::equals`].
    fn eq(&self, other: &Self) -> (r: bool) {
        self.hash == other.hash
    }
}

impl<'a> vstd::std_specs::cmp::PartialEqSpecImpl for Gadget<'a> {
    open spec fn obeys_eq_spec() -> bool {
        true
    }

    open spec fn eq_spec(&self, other: &Self) -> bool {
        self@.hash == other@.hash
    }
}

} // verus!
