//! The SSE sink takes domain events.

use vstd::prelude::*;
use crate::event_bus::event::{DomainEvent, EventPayload, SystemEvent};

verus! {

/// The domain event that goes out to the web gateway, where the payload is one.
pub fn forward_if_domain(event: &SystemEvent) -> (r: Option<&DomainEvent>)
    ensures
        (match r {
            Some(domain) => event.payload == EventPayload::Domain(*domain),
            None => !(event.payload is Domain),
        }),
{
    match &event.payload {
        EventPayload::Domain(domain) => Some(domain),
        _ => None,
    }
}

// ── Laws ────────────────────────────────────────────────────

/// A domain event goes out as it is, whatever its category, and no other event.
pub proof fn law_domain_events_go_out(event: SystemEvent, r: Option<&DomainEvent>)
    requires
        call_ensures(forward_if_domain, (&event,), r),
    ensures
        event.payload matches EventPayload::Domain(x) ==> (r matches Some(sent) && *sent == x),
        !(event.payload is Domain) ==> r is None,
{
}

} // verus!
