//! The content hash: a DJB2-style rolling hash over the concatenated raw
//! bytes of a gadget's instructions, with unsigned 32-bit wraparound.
//!
//! The hash is a function of the byte stream alone: addresses, mnemonics
//! and operand text never enter it. Two gadgets decoded at different
//! addresses from identical bytes therefore hash identically, and hash
//! equality is deliberately coarser than content equality: distinct byte
//! streams may collide.

use vstd::prelude::*;

use crate::record::{models, InstructionRecord, RecordModel};

verus! {

/// Seed of the rolling hash.
pub const HASH_SEED: u32 = 5381;

/// One step of the rolling hash: `h * 33 + b`, reduced modulo 2^32.
pub open spec fn hash_step(h: u32, b: u8) -> u32 {
    ((h * 33 + b) % 0x1_0000_0000) as u32
}

/// The rolling hash of `bytes`, folded left over the stream from state `h`.
pub open spec fn hash_bytes_from(h: u32, bytes: Seq<u8>) -> u32
    decreases bytes.len(),
{
    if bytes.len() == 0 {
        h
    } else {
        hash_bytes_from(hash_step(h, bytes.first()), bytes.drop_first())
    }
}

/// The concatenation of the instructions' raw bytes, in stream order.
pub open spec fn stream_bytes(records: Seq<RecordModel>) -> Seq<u8>
    decreases records.len(),
{
    if records.len() == 0 {
        Seq::empty()
    } else {
        stream_bytes(records.drop_last()) + records.last().bytes
    }
}

/// The content hash of a gadget: the rolling hash of its byte stream.
pub open spec fn gadget_hash(records: Seq<RecordModel>) -> u32 {
    hash_bytes_from(HASH_SEED, stream_bytes(records))
}

/// Folding over a concatenation folds over each part in turn.
proof fn lemma_hash_append(h: u32, a: Seq<u8>, b: Seq<u8>)
    ensures
        hash_bytes_from(h, a + b) == hash_bytes_from(hash_bytes_from(h, a), b),
    decreases a.len(),
{
    if a.len() == 0 {
        assert(a + b =~= b);
    } else {
        assert((a + b).first() == a.first());
        assert((a + b).drop_first() =~= a.drop_first() + b);
        lemma_hash_append(hash_step(h, a.first()), a.drop_first(), b);
    }
}

/// Law: the content hash depends only on the concatenated byte stream.
/// Two instruction sequences with the same byte stream hash identically,
/// whatever their addresses, mnemonics or operand text.
pub proof fn lemma_hash_depends_only_on_bytes(a: Seq<RecordModel>, b: Seq<RecordModel>)
    requires
        stream_bytes(a) == stream_bytes(b),
    ensures
        gadget_hash(a) == gadget_hash(b),
{
}

/// Law: instruction sequences whose records carry the same raw bytes,
/// instruction for instruction, have the same byte stream; addresses,
/// mnemonics and operand text do not enter it.
pub proof fn lemma_stream_bytes_ignores_addresses(a: Seq<RecordModel>, b: Seq<RecordModel>)
    requires
        a.len() == b.len(),
        forall|i: int| 0 <= i < a.len() ==> a[i].bytes == b[i].bytes,
    ensures
        stream_bytes(a) == stream_bytes(b),
    decreases a.len(),
{
    if a.len() > 0 {
        lemma_stream_bytes_ignores_addresses(a.drop_last(), b.drop_last());
    }
}

/// Extends rolling-hash state `h` with every byte of `bytes`, in order.
pub fn extend_hash(h: u32, bytes: &Vec<u8>) -> (r: u32)
    ensures
        r == hash_bytes_from(h, bytes@),
{
    let mut acc = h;
    let mut i: usize = 0;
    proof {
        assert(bytes@.skip(0) =~= bytes@);
    }
    while i < bytes.len()
        invariant
            i <= bytes@.len(),
            hash_bytes_from(h, bytes@) == hash_bytes_from(acc, bytes@.skip(i as int)),
        decreases bytes@.len() - i,
    {
        let b = bytes[i];
        let wide: u64 = (acc as u64) * 33 + (b as u64);
        let next: u32 = (wide % 0x1_0000_0000) as u32;
        proof {
            assert(next == hash_step(acc, b));
            assert(bytes@.skip(i as int).first() == bytes@[i as int]);
            assert(bytes@.skip(i as int).drop_first() =~= bytes@.skip(i + 1));
        }
        acc = next;
        i = i + 1;
    }
    proof {
        assert(bytes@.skip(bytes@.len() as int) =~= Seq::<u8>::empty());
    }
    acc
}

/// The content hash of an instruction sequence, per the rolling-hash rule:
/// seed 5381, then `h = h * 33 + b` (mod 2^32) for every raw byte of every
/// instruction in stream order.
pub fn compute_hash(records: &Vec<InstructionRecord>) -> (r: u32)
    ensures
        r == gadget_hash(models(records@)),
{
    let mut acc = HASH_SEED;
    let mut i: usize = 0;
    while i < records.len()
        invariant
            i <= records@.len(),
            acc == gadget_hash(models(records@).take(i as int)),
        decreases records@.len() - i,
    {
        let ghost pre = models(records@).take(i as int);
        let ghost post = models(records@).take(i + 1);
        acc = extend_hash(acc, &records[i].bytes);
        proof {
            assert(post.drop_last() =~= pre);
            assert(post.last() == records@[i as int]@);
            lemma_hash_append(HASH_SEED, stream_bytes(pre), post.last().bytes);
        }
        i = i + 1;
    }
    proof {
        assert(models(records@).take(records@.len() as int) =~= models(records@));
    }
    acc
}

} // verus!
