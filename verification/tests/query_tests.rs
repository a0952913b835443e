//! The gadget-level match rule over per-instruction outcomes.

use rvgadget::query::any_satisfied;

#[test]
fn a_gadget_where_only_the_second_instruction_matches_satisfies() {
    assert!(any_satisfied(&vec![false, true]));
}

#[test]
fn a_gadget_where_no_instruction_matches_does_not_satisfy() {
    assert!(!any_satisfied(&vec![false, false]));
}

#[test]
fn no_outcomes_do_not_satisfy() {
    assert!(!any_satisfied(&vec![]));
}

#[test]
fn a_single_match_anywhere_satisfies() {
    assert!(any_satisfied(&vec![true]));
    assert!(any_satisfied(&vec![true, false, false]));
    assert!(any_satisfied(&vec![false, false, true]));
}
