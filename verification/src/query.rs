//! The consumed interface to the external query component, and the
//! gadget-level match rule over per-instruction outcomes.

use vstd::prelude::*;

use crate::record::InstructionRecord;

verus! {

/// The capability interface to the external query component: a boolean
/// predicate over one decoded instruction together with its extended and
/// its RISC-V-specific decode detail. Any implementation with this
/// signature is interchangeable; it is invoked once per instruction during
/// filtering.
pub trait QueryBridge {
    /// Whether this single instruction satisfies the predicate.
    fn is_satisfied<'a>(
        &self,
        ins: &InstructionRecord,
        detail: &capstone::InsnDetail<'a>,
        arch_detail: &capstone::arch::riscv::RiscVInsnDetail<'a>,
    ) -> bool;
}

/// The gadget-level match rule: a gadget matches when any constituent
/// instruction's outcome is a match — a short-circuit OR, scanning in
/// order and stopping at the first match.
pub fn any_satisfied(outcomes: &Vec<bool>) -> (r: bool)
    ensures
        r == exists|i: int| 0 <= i < outcomes@.len() && #[trigger] outcomes@[i],
{
    let mut i: usize = 0;
    while i < outcomes.len()
        invariant
            i <= outcomes@.len(),
            forall|j: int| 0 <= j < i ==> !(#[trigger] outcomes@[j]),
        decreases outcomes@.len() - i,
    {
        if outcomes[i] {
            return true;
        }
        i = i + 1;
    }
    false
}

} // verus!
