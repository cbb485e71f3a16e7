//! Finding the watched core among the renewability events of a block.

use vstd::prelude::*;
use crate::records::RenewabilityEvent;

verus! {

/// The first event in `events` that names `core`, if there is one.
pub open spec fn first_for(events: Seq<RenewabilityEvent>, core: u16) -> Option<RenewabilityEvent>
    decreases events.len(),
{
    if events.len() == 0 {
        None
    } else if events[0].core == core {
        Some(events[0])
    } else {
        first_for(events.skip(1), core)
    }
}

/// How many events in `events` name `core`.
pub open spec fn count_for(events: Seq<RenewabilityEvent>, core: u16) -> nat
    decreases events.len(),
{
    if events.len() == 0 {
        0
    } else if events[0].core == core {
        1 + count_for(events.skip(1), core)
    } else {
        count_for(events.skip(1), core)
    }
}

/// Whether position `i` holds the first event that names `core`.
pub open spec fn is_first_at(events: Seq<RenewabilityEvent>, core: u16, i: int) -> bool {
    &&& 0 <= i < events.len()
    &&& events[i].core == core
    &&& forall|j: int| 0 <= j < i ==> events[j].core != core
}

/// `first_for` returns the event at the least position that names `core`, and
/// nothing exactly when no position does.
pub proof fn lemma_first_for(events: Seq<RenewabilityEvent>, core: u16)
    ensures
        first_for(events, core) is None <==> forall|j: int|
            0 <= j < events.len() ==> events[j].core != core,
        first_for(events, core) is Some ==> exists|i: int|
            is_first_at(events, core, i) && first_for(events, core) == Some(events[i]),
    decreases events.len(),
{
    if events.len() == 0 {
    } else if events[0].core == core {
        assert(is_first_at(events, core, 0));
    } else {
        let rest = events.skip(1);
        lemma_first_for(rest, core);
        assert forall|j: int| 0 <= j < rest.len() implies rest[j] == events[j + 1] by {}
        if first_for(rest, core) is Some {
            let i = choose|i: int|
                is_first_at(rest, core, i) && first_for(rest, core) == Some(rest[i]);
            assert forall|j: int| 0 <= j < i + 1 implies events[j].core != core by {
                if j > 0 {
                    assert(rest[j - 1] == events[j]);
                }
            }
            assert(is_first_at(events, core, i + 1));
        } else {
            assert forall|j: int| 0 <= j < events.len() implies events[j].core != core by {
                if j > 0 {
                    assert(rest[j - 1] == events[j]);
                }
            }
        }
    }
}

/// An event is found exactly when at least one names the core.
pub proof fn lemma_found_iff_counted(events: Seq<RenewabilityEvent>, core: u16)
    ensures
        first_for(events, core) is Some <==> count_for(events, core) >= 1,
    decreases events.len(),
{
    if events.len() > 0 && events[0].core != core {
        lemma_found_iff_counted(events.skip(1), core);
    }
}

/// Looks for the first event that names `core`.
pub fn find_event(events: &Vec<RenewabilityEvent>, core: u16) -> (found: Option<RenewabilityEvent>)
    ensures
        found == first_for(events@, core),
{
    let mut i: usize = 0;
    assert(events@.skip(0) =~= events@);
    while i < events.len()
        invariant
            i <= events.len(),
            first_for(events@, core) == first_for(events@.skip(i as int), core),
        decreases events.len() - i,
    {
        let event = events[i];
        proof {
            let tail = events@.skip(i as int);
            assert(tail[0] == events@[i as int]);
            assert(tail.skip(1) =~= events@.skip(i + 1));
        }
        if event.core == core {
            return Some(event);
        }
        i += 1;
    }
    None
}

} // verus!
