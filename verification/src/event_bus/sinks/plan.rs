//! Which sinks run.

use vstd::prelude::*;

verus! {

/// A subscriber of the bus.
#[derive(Clone, Copy, Debug, PartialEq, Eq, Structural)]
pub enum SinkKind {
    Sse,
    State,
    Metrics,
    Audit,
}

/// `kind` alone where it is wanted.
pub open spec fn sink_if(wanted: bool, kind: SinkKind) -> Seq<SinkKind> {
    if wanted {
        seq![kind]
    } else {
        seq![]
    }
}

/// The sinks to start, in their order: each one whose target is configured.
pub fn spawn_sinks(sse: bool, state: bool, metrics: bool, audit: bool) -> (r: Vec<SinkKind>)
    ensures
        r@ == sink_if(sse, SinkKind::Sse) + sink_if(state, SinkKind::State) + sink_if(
            metrics,
            SinkKind::Metrics,
        ) + sink_if(audit, SinkKind::Audit),
{
    let mut sinks: Vec<SinkKind> = Vec::new();
    if sse {
        sinks.push(SinkKind::Sse);
    }
    if state {
        sinks.push(SinkKind::State);
    }
    if metrics {
        sinks.push(SinkKind::Metrics);
    }
    if audit {
        sinks.push(SinkKind::Audit);
    }
    sinks
}

// ── Laws ────────────────────────────────────────────────────

/// A sink runs exactly where its target is configured, once, and the sinks
/// start in a fixed order.
pub proof fn law_configured_sinks_run(
    sse: bool,
    state: bool,
    metrics: bool,
    audit: bool,
    r: Vec<SinkKind>,
)
    requires
        call_ensures(spawn_sinks, (sse, state, metrics, audit), r),
    ensures
        r@.contains(SinkKind::Sse) <==> sse,
        r@.contains(SinkKind::State) <==> state,
        r@.contains(SinkKind::Metrics) <==> metrics,
        r@.contains(SinkKind::Audit) <==> audit,
        r@.no_duplicates(),
        sse ==> r@[0] is Sse,
        audit ==> r@.last() is Audit,
        state && metrics ==> r@.index_of(SinkKind::State) < r@.index_of(SinkKind::Metrics),
{
    let a: int = if sse { 1 } else { 0 };
    let b: int = a + (if state { 1int } else { 0 });
    let c: int = b + (if metrics { 1int } else { 0 });
    assert(sse ==> r@[0] is Sse);
    assert(state ==> r@[a] is State);
    assert(metrics ==> r@[b] is Metrics);
    assert(audit ==> r@[c] is Audit);
}

} // verus!
