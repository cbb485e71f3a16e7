//! The two numeric rules: can the account pay, and is the priority window
//! still open. Both are stated over unbounded integers and decided without
//! overflow.

use vstd::prelude::*;

verus! {

/// Whether an account holding `free` can pay `price` and still keep the
/// `deposit` that the chain demands of a live account.
pub open spec fn affordable(free: u128, price: u128, deposit: u128) -> bool {
    free >= price + deposit
}

/// Whether block `number` lies in the priority window that opened at block
/// `start` and lasts `interlude` blocks. The last block of the window counts.
pub open spec fn within_window(number: u32, start: u32, interlude: u32) -> bool {
    number <= start + interlude
}

/// Decides `affordable`. A sum beyond the range of `u128` exceeds every
/// balance.
pub fn enough_funds(free: u128, price: u128, deposit: u128) -> (enough: bool)
    ensures
        enough == affordable(free, price, deposit),
{
    match price.checked_add(deposit) {
        Some(needed) => free >= needed,
        None => false,
    }
}

/// Decides `within_window`. A window whose end lies beyond the range of `u32`
/// holds every block.
pub fn in_window(number: u32, start: u32, interlude: u32) -> (inside: bool)
    ensures
        inside == within_window(number, start, interlude),
{
    match start.checked_add(interlude) {
        Some(end) => number <= end,
        None => true,
    }
}

/// The window's last block is inside it and the block after is not.
pub proof fn lemma_window_boundary(start: u32, interlude: u32)
    ensures
        forall|number: u32| number == start + interlude ==> within_window(number, start, interlude),
        forall|number: u32|
            number == start + interlude + 1 ==> !within_window(number, start, interlude),
{
}

} // verus!
