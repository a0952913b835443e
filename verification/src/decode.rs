//! Trusted bindings to the capstone disassembly engine, the external
//! decoder collaborator: the engine's handle and instruction types are
//! declared opaquely, and each call the gadget logic makes goes through a
//! thin wrapper. Decoding itself is never reimplemented here.

use vstd::prelude::*;

use crate::record::InstructionRecord;

verus! {

#[verifier::external_type_specification]
#[verifier::external_body]
pub struct ExCapstone(capstone::Capstone);

#[verifier::external_type_specification]
#[verifier::external_body]
pub struct ExInstructions<'a>(capstone::Instructions<'a>);

#[verifier::external_type_specification]
#[verifier::external_body]
pub struct ExInsn<'a>(capstone::Insn<'a>);

#[verifier::external_type_specification]
#[verifier::external_body]
pub struct ExOwnedInsn<'a>(capstone::OwnedInsn<'a>);

#[verifier::external_type_specification]
#[verifier::external_body]
pub struct ExInsnDetail<'a>(capstone::InsnDetail<'a>);

#[verifier::external_type_specification]
#[verifier::external_body]
pub struct ExArchDetail<'a>(capstone::arch::ArchDetail<'a>);

#[verifier::external_type_specification]
#[verifier::external_body]
pub struct ExRiscVInsnDetail<'a>(capstone::arch::riscv::RiscVInsnDetail<'a>);

/// Relies on `Instructions::as_ref` and `OwnedInsn::from`: deep-copies each
/// instruction of the decoder's transient buffer, decode detail included,
/// onto the heap, keeping the stream order.
#[verifier::external_body]
pub(crate) fn owned_insns<'a>(insns: capstone::Instructions<'a>) -> Vec<capstone::OwnedInsn<'a>> {
    let mut v = Vec::new();
    for ins in insns.as_ref() {
        v.push(capstone::OwnedInsn::from(ins));
    }
    v
}

/// Relies on `Insn::address` (reached through `OwnedInsn`'s deref): the
/// address the instruction was decoded at.
#[verifier::external_body]
pub(crate) fn insn_address<'a>(ins: &capstone::OwnedInsn<'a>) -> u64 {
    ins.address()
}

/// Relies on `Insn::bytes`: the instruction's raw byte-level encoding.
#[verifier::external_body]
pub(crate) fn insn_bytes<'a>(ins: &capstone::OwnedInsn<'a>) -> Vec<u8> {
    ins.bytes().to_vec()
}

/// Relies on `Insn::mnemonic`: the mnemonic text, absent in the engine's
/// diet mode.
#[verifier::external_body]
pub(crate) fn insn_mnemonic<'a>(ins: &capstone::OwnedInsn<'a>) -> Option<String> {
    ins.mnemonic().map(|s| s.to_string())
}

/// Relies on `Insn::op_str`: the operand text, absent in the engine's diet
/// mode.
#[verifier::external_body]
pub(crate) fn insn_operands<'a>(ins: &capstone::OwnedInsn<'a>) -> Option<String> {
    ins.op_str().map(|s| s.to_string())
}

/// Relies on `Capstone::insn_detail`: the extended decode detail of the
/// instruction, or nothing when the engine cannot provide it (detail mode
/// off, or irrelevant data under skipdata).
#[verifier::external_body]
pub(crate) fn fetch_detail<'s, 'i>(
    cs: &'s capstone::Capstone,
    ins: &'i capstone::OwnedInsn<'i>,
) -> Option<capstone::InsnDetail<'i>> {
    cs.insn_detail(ins).ok()
}

/// Relies on `InsnDetail::arch_detail`: the architecture-specific view of
/// the extended detail.
#[verifier::external_body]
pub(crate) fn arch_detail_of<'d>(d: &'d capstone::InsnDetail<'d>) -> capstone::arch::ArchDetail<
    'd,
> {
    d.arch_detail()
}

/// Relies on `ArchDetail::riscv`: the RISC-V-specific detail when the
/// instruction was decoded for that architecture, nothing otherwise.
#[verifier::external_body]
pub(crate) fn riscv_detail_of<'d>(a: &'d capstone::arch::ArchDetail<'d>) -> Option<
    &'d capstone::arch::riscv::RiscVInsnDetail<'d>,
> {
    a.riscv()
}

/// An owned record of one decoded instruction. Mnemonic or operand text the
/// engine does not carry (its diet mode) is copied as empty text.
pub(crate) fn record_of<'a>(ins: &capstone::OwnedInsn<'a>) -> InstructionRecord {
    let mnemonic = match insn_mnemonic(ins) {
        Some(m) => m,
        None => String::new(),
    };
    let operands = match insn_operands(ins) {
        Some(o) => o,
        None => String::new(),
    };
    InstructionRecord { address: insn_address(ins), bytes: insn_bytes(ins), mnemonic, operands }
}

} // verus!
