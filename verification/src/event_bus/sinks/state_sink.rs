//! The state sink takes changes of state.

use vstd::prelude::*;
use crate::event_bus::event::{EventPayload, StateChange, SystemEvent};

verus! {

/// The change that is published, where the payload is one.
pub fn forward_if_state_change(event: &SystemEvent) -> (r: Option<&StateChange>)
    ensures
        (match r {
            Some(change) => event.payload == EventPayload::StateChange(*change),
            None => !(event.payload is StateChange),
        }),
{
    match &event.payload {
        EventPayload::StateChange(change) => Some(change),
        _ => None,
    }
}

// ── Laws ────────────────────────────────────────────────────

/// A change of state is published as it is, whatever its category, and no other
/// event.
pub proof fn law_state_changes_are_published(event: SystemEvent, r: Option<&StateChange>)
    requires
        call_ensures(forward_if_state_change, (&event,), r),
    ensures
        event.payload matches EventPayload::StateChange(x) ==> (r matches Some(sent) && *sent
            == x),
        !(event.payload is StateChange) ==> r is None,
{
}

} // verus!
