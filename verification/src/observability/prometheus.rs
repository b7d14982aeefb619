//! Prometheus metrics: counters, gauges and their text exposition.

use vstd::prelude::*;
use crate::bits::{signed_bits, to_signed};
use crate::text::{append_decimal, decimal};
use crate::time::Duration;

verus! {

broadcast use vstd::string::group_string_axioms;

/// The counters and gauges of one process. Counters wrap around at the end of
/// their range.
#[derive(Clone, Copy, Debug, PartialEq, Eq, Structural)]
pub struct PrometheusMetrics {
    pub llm_requests_total: u64,
    pub llm_responses_ok_total: u64,
    pub llm_responses_err_total: u64,
    pub tool_calls_total: u64,
    pub tool_calls_ok_total: u64,
    pub tool_calls_err_total: u64,
    pub agent_turns_total: u64,
    pub channel_messages_total: u64,
    pub heartbeat_ticks_total: u64,
    pub tokens_used_total: u64,
    /// Sum of request latencies, in nanoseconds.
    pub request_latency_ns_total: u64,
    pub request_latency_count: u64,
    /// Active jobs; shown as 0 where negative.
    pub active_jobs: i64,
    /// Queue depth; shown as 0 where negative.
    pub queue_depth: i64,
}

/// What the agent did.
#[derive(Debug)]
pub enum ObserverEvent {
    LlmRequest { provider: String, model: String, message_count: usize },
    LlmResponse {
        provider: String,
        model: String,
        duration: Duration,
        success: bool,
        error_message: Option<String>,
    },
    ToolCallEnd { tool: String, duration: Duration, success: bool },
    TurnComplete,
    ChannelMessage { channel: String, direction: String },
    HeartbeatTick,
    /// An event that no counter follows, kept by its label.
    Other { label: String },
}

/// A measurement.
#[derive(Debug)]
pub enum ObserverMetric {
    TokensUsed(u64),
    RequestLatency(Duration),
    ActiveJobs(u64),
    QueueDepth(u64),
}

/// A gauge as it is shown.
pub open spec fn shown_gauge(v: i64) -> nat {
    if v < 0 {
        0
    } else {
        v as nat
    }
}

fn clamp_gauge(v: i64) -> (r: u64)
    ensures
        r == shown_gauge(v),
{
    if v < 0 {
        0
    } else {
        v as u64
    }
}

/// The text exposition of the metrics, with `latency_sum` for the sum of the
/// latencies in seconds.
pub open spec fn exposition(m: PrometheusMetrics, latency_sum: Seq<char>) -> Seq<char> {
    "# HELP ironclaw_llm_requests_total Total LLM requests sent.\n# TYPE ironclaw_llm_requests_total counter\nironclaw_llm_requests_total "@
        + decimal(m.llm_requests_total as nat)
        + "\n# HELP ironclaw_llm_responses_total Total LLM responses received.\n# TYPE ironclaw_llm_responses_total counter\nironclaw_llm_responses_total{result=\"ok\"} "@
        + decimal(m.llm_responses_ok_total as nat)
        + "\nironclaw_llm_responses_total{result=\"err\"} "@
        + decimal(m.llm_responses_err_total as nat)
        + "\n# HELP ironclaw_tool_calls_total Total tool calls executed.\n# TYPE ironclaw_tool_calls_total counter\nironclaw_tool_calls_total{result=\"ok\"} "@
        + decimal(m.tool_calls_ok_total as nat)
        + "\nironclaw_tool_calls_total{result=\"err\"} "@
        + decimal(m.tool_calls_err_total as nat)
        + "\n# HELP ironclaw_agent_turns_total Total agent reasoning turns completed.\n# TYPE ironclaw_agent_turns_total counter\nironclaw_agent_turns_total "@
        + decimal(m.agent_turns_total as nat)
        + "\n# HELP ironclaw_channel_messages_total Total channel messages processed.\n# TYPE ironclaw_channel_messages_total counter\nironclaw_channel_messages_total "@
        + decimal(m.channel_messages_total as nat)
        + "\n# HELP ironclaw_heartbeat_ticks_total Total heartbeat ticks fired.\n# TYPE ironclaw_heartbeat_ticks_total counter\nironclaw_heartbeat_ticks_total "@
        + decimal(m.heartbeat_ticks_total as nat)
        + "\n# HELP ironclaw_tokens_used_total Cumulative LLM tokens consumed.\n# TYPE ironclaw_tokens_used_total counter\nironclaw_tokens_used_total "@
        + decimal(m.tokens_used_total as nat)
        + "\n# HELP ironclaw_request_latency_seconds Request latency histogram (sum/count).\n# TYPE ironclaw_request_latency_seconds summary\nironclaw_request_latency_seconds_sum "@
        + latency_sum
        + "\nironclaw_request_latency_seconds_count "@
        + decimal(m.request_latency_count as nat)
        + "\n# HELP ironclaw_active_jobs Current number of active agent jobs.\n# TYPE ironclaw_active_jobs gauge\nironclaw_active_jobs "@
        + decimal(shown_gauge(m.active_jobs))
        + "\n# HELP ironclaw_queue_depth Current agent message queue depth.\n# TYPE ironclaw_queue_depth gauge\nironclaw_queue_depth "@
        + decimal(shown_gauge(m.queue_depth))
        + "\n"@
}

/// All counters and gauges at zero.
pub open spec fn no_metrics() -> PrometheusMetrics {
    PrometheusMetrics {
        llm_requests_total: 0,
        llm_responses_ok_total: 0,
        llm_responses_err_total: 0,
        tool_calls_total: 0,
        tool_calls_ok_total: 0,
        tool_calls_err_total: 0,
        agent_turns_total: 0,
        channel_messages_total: 0,
        heartbeat_ticks_total: 0,
        tokens_used_total: 0,
        request_latency_ns_total: 0,
        request_latency_count: 0,
        active_jobs: 0,
        queue_depth: 0,
    }
}

impl Default for PrometheusMetrics {
    fn default() -> (r: Self)
        ensures
            r == no_metrics(),
    {
        PrometheusMetrics {
            llm_requests_total: 0,
            llm_responses_ok_total: 0,
            llm_responses_err_total: 0,
            tool_calls_total: 0,
            tool_calls_ok_total: 0,
            tool_calls_err_total: 0,
            agent_turns_total: 0,
            channel_messages_total: 0,
            heartbeat_ticks_total: 0,
            tokens_used_total: 0,
            request_latency_ns_total: 0,
            request_latency_count: 0,
            active_jobs: 0,
            queue_depth: 0,
        }
    }
}

impl PrometheusMetrics {
    /// Writes all metrics in the Prometheus text format. `latency_sum` is
    /// `request_latency_ns_total` in seconds, as decimal text.
    pub fn render(&self, latency_sum: &str) -> (r: String)
        ensures
            r@ == exposition(*self, latency_sum@),
    {
        let mut out = "# HELP ironclaw_llm_requests_total Total LLM requests sent.\n# TYPE ironclaw_llm_requests_total counter\nironclaw_llm_requests_total ".to_string();
        append_decimal(&mut out, self.llm_requests_total);
        out.append(
            "\n# HELP ironclaw_llm_responses_total Total LLM responses received.\n# TYPE ironclaw_llm_responses_total counter\nironclaw_llm_responses_total{result=\"ok\"} ",
        );
        append_decimal(&mut out, self.llm_responses_ok_total);
        out.append(
            "\nironclaw_llm_responses_total{result=\"err\"} ",
        );
        append_decimal(&mut out, self.llm_responses_err_total);
        out.append(
            "\n# HELP ironclaw_tool_calls_total Total tool calls executed.\n# TYPE ironclaw_tool_calls_total counter\nironclaw_tool_calls_total{result=\"ok\"} ",
        );
        append_decimal(&mut out, self.tool_calls_ok_total);
        out.append(
            "\nironclaw_tool_calls_total{result=\"err\"} ",
        );
        append_decimal(&mut out, self.tool_calls_err_total);
        out.append(
            "\n# HELP ironclaw_agent_turns_total Total agent reasoning turns completed.\n# TYPE ironclaw_agent_turns_total counter\nironclaw_agent_turns_total ",
        );
        append_decimal(&mut out, self.agent_turns_total);
        out.append(
            "\n# HELP ironclaw_channel_messages_total Total channel messages processed.\n# TYPE ironclaw_channel_messages_total counter\nironclaw_channel_messages_total ",
        );
        append_decimal(&mut out, self.channel_messages_total);
        out.append(
            "\n# HELP ironclaw_heartbeat_ticks_total Total heartbeat ticks fired.\n# TYPE ironclaw_heartbeat_ticks_total counter\nironclaw_heartbeat_ticks_total ",
        );
        append_decimal(&mut out, self.heartbeat_ticks_total);
        out.append(
            "\n# HELP ironclaw_tokens_used_total Cumulative LLM tokens consumed.\n# TYPE ironclaw_tokens_used_total counter\nironclaw_tokens_used_total ",
        );
        append_decimal(&mut out, self.tokens_used_total);
        out.append(
            "\n# HELP ironclaw_request_latency_seconds Request latency histogram (sum/count).\n# TYPE ironclaw_request_latency_seconds summary\nironclaw_request_latency_seconds_sum ",
        );
        out.append(latency_sum);
        out.append(
            "\nironclaw_request_latency_seconds_count ",
        );
        append_decimal(&mut out, self.request_latency_count);
        out.append(
            "\n# HELP ironclaw_active_jobs Current number of active agent jobs.\n# TYPE ironclaw_active_jobs gauge\nironclaw_active_jobs ",
        );
        append_decimal(&mut out, clamp_gauge(self.active_jobs));
        out.append(
            "\n# HELP ironclaw_queue_depth Current agent message queue depth.\n# TYPE ironclaw_queue_depth gauge\nironclaw_queue_depth ",
        );
        append_decimal(&mut out, clamp_gauge(self.queue_depth));
        out.append("\n");
        out
    }
}

/// The metrics after an event.
pub open spec fn after_event(m: PrometheusMetrics, event: ObserverEvent) -> PrometheusMetrics {
    match event {
        ObserverEvent::LlmRequest { provider, model, message_count } => PrometheusMetrics {
            llm_requests_total: m.llm_requests_total.wrapping_add(1),
            ..m
        },
        ObserverEvent::LlmResponse { provider, model, duration, success, error_message } => {
            if success {
                PrometheusMetrics {
                    llm_responses_ok_total: m.llm_responses_ok_total.wrapping_add(1),
                    ..m
                }
            } else {
                PrometheusMetrics {
                    llm_responses_err_total: m.llm_responses_err_total.wrapping_add(1),
                    ..m
                }
            }
        },
        ObserverEvent::ToolCallEnd { tool, duration, success } => {
            let counted = PrometheusMetrics {
                tool_calls_total: m.tool_calls_total.wrapping_add(1),
                ..m
            };
            if success {
                PrometheusMetrics {
                    tool_calls_ok_total: m.tool_calls_ok_total.wrapping_add(1),
                    ..counted
                }
            } else {
                PrometheusMetrics {
                    tool_calls_err_total: m.tool_calls_err_total.wrapping_add(1),
                    ..counted
                }
            }
        },
        ObserverEvent::TurnComplete => PrometheusMetrics {
            agent_turns_total: m.agent_turns_total.wrapping_add(1),
            ..m
        },
        ObserverEvent::ChannelMessage { channel, direction } => PrometheusMetrics {
            channel_messages_total: m.channel_messages_total.wrapping_add(1),
            ..m
        },
        ObserverEvent::HeartbeatTick => PrometheusMetrics {
            heartbeat_ticks_total: m.heartbeat_ticks_total.wrapping_add(1),
            ..m
        },
        ObserverEvent::Other { label } => m,
    }
}

/// A length of time in nanoseconds, at most the largest 64-bit number.
pub open spec fn capped_nanos(d: Duration) -> u64 {
    let total = d.secs * 1_000_000_000 + d.nanos;
    if total > u64::MAX {
        u64::MAX
    } else {
        total as u64
    }
}

/// The metrics after a measurement.
pub open spec fn after_metric(m: PrometheusMetrics, metric: ObserverMetric) -> PrometheusMetrics {
    match metric {
        ObserverMetric::TokensUsed(n) => PrometheusMetrics {
            tokens_used_total: m.tokens_used_total.wrapping_add(n),
            ..m
        },
        ObserverMetric::RequestLatency(d) => PrometheusMetrics {
            request_latency_ns_total: m.request_latency_ns_total.wrapping_add(capped_nanos(d)),
            request_latency_count: m.request_latency_count.wrapping_add(1),
            ..m
        },
        ObserverMetric::ActiveJobs(n) => PrometheusMetrics { active_jobs: signed_bits(n), ..m },
        ObserverMetric::QueueDepth(n) => PrometheusMetrics { queue_depth: signed_bits(n), ..m },
    }
}

/// A length of time in nanoseconds, saturating at the range of `u64`.
pub fn duration_to_nanos(d: &Duration) -> (r: u64)
    ensures
        r == capped_nanos(*d),
{
    let nanos: u128 = (d.secs as u128) * 1_000_000_000 + (d.nanos as u128);
    if nanos > 18_446_744_073_709_551_615 {
        u64::MAX
    } else {
        nanos as u64
    }
}

/// An observer that keeps Prometheus metrics.
#[derive(Debug)]
pub struct PrometheusObserver {
    pub metrics: PrometheusMetrics,
}

impl PrometheusObserver {
    /// An observer with all metrics at zero.
    pub fn new() -> (r: PrometheusObserver)
        ensures
            r.metrics == no_metrics(),
    {
        PrometheusObserver { metrics: PrometheusMetrics::default() }
    }

    /// The backend's name.
    pub fn name(&self) -> (r: &'static str)
        ensures
            r@ == "prometheus"@,
    {
        "prometheus"
    }

    /// Counts an event.
    pub fn record_event(&mut self, event: &ObserverEvent)
        ensures
            final(self).metrics == after_event(old(self).metrics, *event),
    {
        match event {
            ObserverEvent::LlmRequest { .. } => {
                self.metrics.llm_requests_total = self.metrics.llm_requests_total.wrapping_add(1);
            },
            ObserverEvent::LlmResponse { success, .. } => {
                if *success {
                    self.metrics.llm_responses_ok_total =
                    self.metrics.llm_responses_ok_total.wrapping_add(1);
                } else {
                    self.metrics.llm_responses_err_total =
                    self.metrics.llm_responses_err_total.wrapping_add(1);
                }
            },
            ObserverEvent::ToolCallEnd { success, .. } => {
                if *success {
                    self.metrics.tool_calls_ok_total =
                    self.metrics.tool_calls_ok_total.wrapping_add(1);
                } else {
                    self.metrics.tool_calls_err_total =
                    self.metrics.tool_calls_err_total.wrapping_add(1);
                }
                self.metrics.tool_calls_total = self.metrics.tool_calls_total.wrapping_add(1);
            },
            ObserverEvent::TurnComplete => {
                self.metrics.agent_turns_total = self.metrics.agent_turns_total.wrapping_add(1);
            },
            ObserverEvent::ChannelMessage { .. } => {
                self.metrics.channel_messages_total =
                self.metrics.channel_messages_total.wrapping_add(1);
            },
            ObserverEvent::HeartbeatTick => {
                self.metrics.heartbeat_ticks_total =
                self.metrics.heartbeat_ticks_total.wrapping_add(1);
            },
            ObserverEvent::Other { .. } => {},
        }
    }

    /// Takes a measurement in.
    pub fn record_metric(&mut self, metric: &ObserverMetric)
        ensures
            final(self).metrics == after_metric(old(self).metrics, *metric),
    {
        match metric {
            ObserverMetric::TokensUsed(n) => {
                self.metrics.tokens_used_total = self.metrics.tokens_used_total.wrapping_add(*n);
            },
            ObserverMetric::RequestLatency(d) => {
                self.metrics.request_latency_ns_total =
                self.metrics.request_latency_ns_total.wrapping_add(duration_to_nanos(d));
                self.metrics.request_latency_count =
                self.metrics.request_latency_count.wrapping_add(1);
            },
            ObserverMetric::ActiveJobs(n) => {
                self.metrics.active_jobs = to_signed(*n);
            },
            ObserverMetric::QueueDepth(n) => {
                self.metrics.queue_depth = to_signed(*n);
            },
        }
    }
}

// ── Laws ────────────────────────────────────────────────────

/// Finished tool calls are the good ones and the bad ones together.
pub open spec fn tool_calls_add_up(m: PrometheusMetrics) -> bool {
    m.tool_calls_total == m.tool_calls_ok_total.wrapping_add(m.tool_calls_err_total)
}

/// Finished tool calls are the good ones and the bad ones together: that holds
/// at first, and every event and every measurement keeps it.
pub proof fn law_tool_calls_add_up(
    m: PrometheusMetrics,
    event: ObserverEvent,
    metric: ObserverMetric,
)
    requires
        tool_calls_add_up(m),
    ensures
        tool_calls_add_up(no_metrics()),
        tool_calls_add_up(after_event(m, event)),
        tool_calls_add_up(after_metric(m, metric)),
{
}

/// Events leave the gauges, the token count and the latencies alone;
/// measurements leave the event counters alone.
pub proof fn law_events_and_metrics_are_separate(
    m: PrometheusMetrics,
    event: ObserverEvent,
    metric: ObserverMetric,
)
    ensures
        after_metric(after_event(m, event), metric) == after_event(after_metric(m, metric), event),
{
}

/// A negative gauge is shown as zero.
pub proof fn law_gauges_are_never_shown_negative(m: PrometheusMetrics, latency_sum: Seq<char>)
    ensures
        m.active_jobs < 0 ==> exposition(m, latency_sum) == exposition(
            PrometheusMetrics { active_jobs: 0, ..m },
            latency_sum,
        ),
        m.queue_depth < 0 ==> exposition(m, latency_sum) == exposition(
            PrometheusMetrics { queue_depth: 0, ..m },
            latency_sum,
        ),
{
}

/// An observer begins with every counter and every gauge at zero.
pub proof fn law_metrics_begin_at_zero(r: PrometheusObserver, name: &str)
    requires
        call_ensures(PrometheusObserver::new, (), r),
        call_ensures(PrometheusObserver::name, (&r,), name),
    ensures
        name@ == "prometheus"@,
        r.metrics.llm_requests_total == 0 && r.metrics.llm_responses_ok_total == 0,
        r.metrics.llm_responses_err_total == 0 && r.metrics.tool_calls_total == 0,
        r.metrics.tool_calls_ok_total == 0 && r.metrics.tool_calls_err_total == 0,
        r.metrics.agent_turns_total == 0 && r.metrics.channel_messages_total == 0,
        r.metrics.heartbeat_ticks_total == 0 && r.metrics.tokens_used_total == 0,
        r.metrics.request_latency_ns_total == 0 && r.metrics.request_latency_count == 0,
        r.metrics.active_jobs == 0 && r.metrics.queue_depth == 0,
{
}

/// A counter went up by `n`, around the end of its range.
pub open spec fn counted(before: u64, after: u64, n: int) -> bool {
    after == before + n || after == before + n - 0x1_0000_0000_0000_0000
}

/// One more if `wanted`, else the same.
pub open spec fn counted_if(before: u64, after: u64, wanted: bool) -> bool {
    counted(
        before,
        after,
        if wanted {
            1
        } else {
            0
        },
    )
}

/// Every event counts on the counters for it and on no other: requests,
/// responses by how they went, tool calls in all and by how they went, turns,
/// channel messages and ticks. No event moves a gauge.
pub proof fn law_events_are_counted(observer: &mut PrometheusObserver, event: ObserverEvent)
    requires
        call_ensures(PrometheusObserver::record_event, (observer, &event), ()),
    ensures
        ({
            let m = old(observer).metrics;
            let n = final(observer).metrics;
            let good = event matches ObserverEvent::LlmResponse { success, .. } && success;
            let bad = event matches ObserverEvent::LlmResponse { success, .. } && !success;
            let done = event matches ObserverEvent::ToolCallEnd { success, .. } && success;
            let failed = event matches ObserverEvent::ToolCallEnd { success, .. } && !success;
            &&& counted_if(m.llm_requests_total, n.llm_requests_total, event is LlmRequest)
            &&& counted_if(m.llm_responses_ok_total, n.llm_responses_ok_total, good)
            &&& counted_if(m.llm_responses_err_total, n.llm_responses_err_total, bad)
            &&& counted_if(m.tool_calls_total, n.tool_calls_total, event is ToolCallEnd)
            &&& counted_if(m.tool_calls_ok_total, n.tool_calls_ok_total, done)
            &&& counted_if(m.tool_calls_err_total, n.tool_calls_err_total, failed)
            &&& counted_if(m.agent_turns_total, n.agent_turns_total, event is TurnComplete)
            &&& counted_if(
                m.channel_messages_total,
                n.channel_messages_total,
                event is ChannelMessage,
            )
            &&& counted_if(m.heartbeat_ticks_total, n.heartbeat_ticks_total, event is HeartbeatTick)
            &&& n.tokens_used_total == m.tokens_used_total
            &&& n.request_latency_ns_total == m.request_latency_ns_total
            &&& n.request_latency_count == m.request_latency_count
            &&& n.active_jobs == m.active_jobs && n.queue_depth == m.queue_depth
        }),
{
}

/// Tokens add up, latencies add up and are counted, and a gauge is set to what
/// was measured. Nothing else moves.
pub proof fn law_measurements_are_taken_in(
    observer: &mut PrometheusObserver,
    metric: ObserverMetric,
)
    requires
        call_ensures(PrometheusObserver::record_metric, (observer, &metric), ()),
    ensures
        ({
            let m = old(observer).metrics;
            let n = final(observer).metrics;
            &&& counted(
                m.tokens_used_total,
                n.tokens_used_total,
                match metric {
                    ObserverMetric::TokensUsed(k) => k as int,
                    _ => 0,
                },
            )
            &&& counted_if(
                m.request_latency_count,
                n.request_latency_count,
                metric is RequestLatency,
            )
            &&& metric matches ObserverMetric::RequestLatency(d) ==> d.secs * 1_000_000_000
                + d.nanos <= u64::MAX ==> counted(
                m.request_latency_ns_total,
                n.request_latency_ns_total,
                d.secs * 1_000_000_000 + d.nanos,
            )
            &&& !(metric is RequestLatency) ==> n.request_latency_ns_total
                == m.request_latency_ns_total
            &&& metric matches ObserverMetric::ActiveJobs(k) ==> (k <= i64::MAX ==> n.active_jobs
                == k) && (k > i64::MAX ==> n.active_jobs < 0)
            &&& !(metric is ActiveJobs) ==> n.active_jobs == m.active_jobs
            &&& metric matches ObserverMetric::QueueDepth(k) ==> (k <= i64::MAX ==> n.queue_depth
                == k) && (k > i64::MAX ==> n.queue_depth < 0)
            &&& !(metric is QueueDepth) ==> n.queue_depth == m.queue_depth
            &&& n.llm_requests_total == m.llm_requests_total
            &&& n.llm_responses_ok_total == m.llm_responses_ok_total
            &&& n.llm_responses_err_total == m.llm_responses_err_total
            &&& n.tool_calls_total == m.tool_calls_total
            &&& n.tool_calls_ok_total == m.tool_calls_ok_total
            &&& n.tool_calls_err_total == m.tool_calls_err_total
            &&& n.agent_turns_total == m.agent_turns_total
            &&& n.channel_messages_total == m.channel_messages_total
            &&& n.heartbeat_ticks_total == m.heartbeat_ticks_total
        }),
{
}

/// A length of time is counted in nanoseconds, as far as they can be counted.
pub proof fn law_nanoseconds_of_a_length(d: Duration, r: u64)
    requires
        call_ensures(duration_to_nanos, (&d,), r),
    ensures
        d.secs * 1_000_000_000 + d.nanos <= u64::MAX ==> r == d.secs * 1_000_000_000 + d.nanos,
        d.secs * 1_000_000_000 + d.nanos > u64::MAX ==> r == u64::MAX,
{
}

/// `piece` stands somewhere in `text`.
pub open spec fn has_piece(text: Seq<char>, piece: Seq<char>) -> bool {
    exists|before: Seq<char>, after: Seq<char>| text == #[trigger] (before + piece + after)
}

proof fn lemma_piece(before: Seq<char>, label: Seq<char>, value: Seq<char>)
    ensures
        has_piece(before + label + value, label + value),
{
    assert(before + label + value =~= before + (label + value) + Seq::<char>::empty());
}

proof fn lemma_piece_stays(text: Seq<char>, more: Seq<char>)
    ensures
        forall|piece: Seq<char>|
            has_piece(text, piece) ==> #[trigger] has_piece(text + more, piece),
{
    assert forall|piece: Seq<char>| has_piece(text, piece) implies #[trigger] has_piece(
        text + more,
        piece,
    ) by {
        let (before, after) = choose|before: Seq<char>, after: Seq<char>|
            text == #[trigger] (before + piece + after);
        assert(text + more =~= before + piece + (after + more));
    }
}

/// The exposition shows every number behind its own name and labels: each
/// counter as it is, the sum of the latencies as it was given, and each gauge as
/// it is where it is not negative, else as zero.
#[verifier::rlimit(40)]
pub proof fn law_metrics_are_shown(m: PrometheusMetrics, latency_sum: &str, r: String)
    requires
        call_ensures(PrometheusMetrics::render, (&m, latency_sum), r),
    ensures
        has_piece(
            r@,
            "# HELP ironclaw_llm_requests_total Total LLM requests sent.\n# TYPE ironclaw_llm_requests_total counter\nironclaw_llm_requests_total "@ + decimal(m.llm_requests_total as nat),
        ),
        has_piece(
            r@,
            "\n# HELP ironclaw_llm_responses_total Total LLM responses received.\n# TYPE ironclaw_llm_responses_total counter\nironclaw_llm_responses_total{result=\"ok\"} "@ + decimal(m.llm_responses_ok_total as nat),
        ),
        has_piece(
            r@,
            "\nironclaw_llm_responses_total{result=\"err\"} "@ + decimal(m.llm_responses_err_total as nat),
        ),
        has_piece(
            r@,
            "\n# HELP ironclaw_tool_calls_total Total tool calls executed.\n# TYPE ironclaw_tool_calls_total counter\nironclaw_tool_calls_total{result=\"ok\"} "@ + decimal(m.tool_calls_ok_total as nat),
        ),
        has_piece(
            r@,
            "\nironclaw_tool_calls_total{result=\"err\"} "@ + decimal(m.tool_calls_err_total as nat),
        ),
        has_piece(
            r@,
            "\n# HELP ironclaw_agent_turns_total Total agent reasoning turns completed.\n# TYPE ironclaw_agent_turns_total counter\nironclaw_agent_turns_total "@ + decimal(m.agent_turns_total as nat),
        ),
        has_piece(
            r@,
            "\n# HELP ironclaw_channel_messages_total Total channel messages processed.\n# TYPE ironclaw_channel_messages_total counter\nironclaw_channel_messages_total "@ + decimal(m.channel_messages_total as nat),
        ),
        has_piece(
            r@,
            "\n# HELP ironclaw_heartbeat_ticks_total Total heartbeat ticks fired.\n# TYPE ironclaw_heartbeat_ticks_total counter\nironclaw_heartbeat_ticks_total "@ + decimal(m.heartbeat_ticks_total as nat),
        ),
        has_piece(
            r@,
            "\n# HELP ironclaw_tokens_used_total Cumulative LLM tokens consumed.\n# TYPE ironclaw_tokens_used_total counter\nironclaw_tokens_used_total "@ + decimal(m.tokens_used_total as nat),
        ),
        has_piece(
            r@,
            "\n# HELP ironclaw_request_latency_seconds Request latency histogram (sum/count).\n# TYPE ironclaw_request_latency_seconds summary\nironclaw_request_latency_seconds_sum "@ + latency_sum@,
        ),
        has_piece(
            r@,
            "\nironclaw_request_latency_seconds_count "@ + decimal(m.request_latency_count as nat),
        ),
        has_piece(
            r@,
            "\n# HELP ironclaw_active_jobs Current number of active agent jobs.\n# TYPE ironclaw_active_jobs gauge\nironclaw_active_jobs "@ + decimal(if m.active_jobs < 0 { 0 } else { m.active_jobs as nat }),
        ),
        has_piece(
            r@,
            "\n# HELP ironclaw_queue_depth Current agent message queue depth.\n# TYPE ironclaw_queue_depth gauge\nironclaw_queue_depth "@ + decimal(if m.queue_depth < 0 { 0 } else { m.queue_depth as nat }),
        ),
        r@.len() > 0 && r@.last() == '\n',
{
    let t0: Seq<char> = seq![];
    let t1 = "# HELP ironclaw_llm_requests_total Total LLM requests sent.\n# TYPE ironclaw_llm_requests_total counter\nironclaw_llm_requests_total "@ + decimal(m.llm_requests_total as nat);
    lemma_piece(t0, "# HELP ironclaw_llm_requests_total Total LLM requests sent.\n# TYPE ironclaw_llm_requests_total counter\nironclaw_llm_requests_total "@, decimal(m.llm_requests_total as nat));
    assert(t0 + "# HELP ironclaw_llm_requests_total Total LLM requests sent.\n# TYPE ironclaw_llm_requests_total counter\nironclaw_llm_requests_total "@ + decimal(m.llm_requests_total as nat) =~= t1);
    let u2 = t1 + "\n# HELP ironclaw_llm_responses_total Total LLM responses received.\n# TYPE ironclaw_llm_responses_total counter\nironclaw_llm_responses_total{result=\"ok\"} "@;
    let t2 = u2 + decimal(m.llm_responses_ok_total as nat);
    lemma_piece_stays(t1, "\n# HELP ironclaw_llm_responses_total Total LLM responses received.\n# TYPE ironclaw_llm_responses_total counter\nironclaw_llm_responses_total{result=\"ok\"} "@);
    lemma_piece_stays(u2, decimal(m.llm_responses_ok_total as nat));
    lemma_piece(t1, "\n# HELP ironclaw_llm_responses_total Total LLM responses received.\n# TYPE ironclaw_llm_responses_total counter\nironclaw_llm_responses_total{result=\"ok\"} "@, decimal(m.llm_responses_ok_total as nat));
    let u3 = t2 + "\nironclaw_llm_responses_total{result=\"err\"} "@;
    let t3 = u3 + decimal(m.llm_responses_err_total as nat);
    lemma_piece_stays(t2, "\nironclaw_llm_responses_total{result=\"err\"} "@);
    lemma_piece_stays(u3, decimal(m.llm_responses_err_total as nat));
    lemma_piece(t2, "\nironclaw_llm_responses_total{result=\"err\"} "@, decimal(m.llm_responses_err_total as nat));
    let u4 = t3 + "\n# HELP ironclaw_tool_calls_total Total tool calls executed.\n# TYPE ironclaw_tool_calls_total counter\nironclaw_tool_calls_total{result=\"ok\"} "@;
    let t4 = u4 + decimal(m.tool_calls_ok_total as nat);
    lemma_piece_stays(t3, "\n# HELP ironclaw_tool_calls_total Total tool calls executed.\n# TYPE ironclaw_tool_calls_total counter\nironclaw_tool_calls_total{result=\"ok\"} "@);
    lemma_piece_stays(u4, decimal(m.tool_calls_ok_total as nat));
    lemma_piece(t3, "\n# HELP ironclaw_tool_calls_total Total tool calls executed.\n# TYPE ironclaw_tool_calls_total counter\nironclaw_tool_calls_total{result=\"ok\"} "@, decimal(m.tool_calls_ok_total as nat));
    let u5 = t4 + "\nironclaw_tool_calls_total{result=\"err\"} "@;
    let t5 = u5 + decimal(m.tool_calls_err_total as nat);
    lemma_piece_stays(t4, "\nironclaw_tool_calls_total{result=\"err\"} "@);
    lemma_piece_stays(u5, decimal(m.tool_calls_err_total as nat));
    lemma_piece(t4, "\nironclaw_tool_calls_total{result=\"err\"} "@, decimal(m.tool_calls_err_total as nat));
    let u6 = t5 + "\n# HELP ironclaw_agent_turns_total Total agent reasoning turns completed.\n# TYPE ironclaw_agent_turns_total counter\nironclaw_agent_turns_total "@;
    let t6 = u6 + decimal(m.agent_turns_total as nat);
    lemma_piece_stays(t5, "\n# HELP ironclaw_agent_turns_total Total agent reasoning turns completed.\n# TYPE ironclaw_agent_turns_total counter\nironclaw_agent_turns_total "@);
    lemma_piece_stays(u6, decimal(m.agent_turns_total as nat));
    lemma_piece(t5, "\n# HELP ironclaw_agent_turns_total Total agent reasoning turns completed.\n# TYPE ironclaw_agent_turns_total counter\nironclaw_agent_turns_total "@, decimal(m.agent_turns_total as nat));
    let u7 = t6 + "\n# HELP ironclaw_channel_messages_total Total channel messages processed.\n# TYPE ironclaw_channel_messages_total counter\nironclaw_channel_messages_total "@;
    let t7 = u7 + decimal(m.channel_messages_total as nat);
    lemma_piece_stays(t6, "\n# HELP ironclaw_channel_messages_total Total channel messages processed.\n# TYPE ironclaw_channel_messages_total counter\nironclaw_channel_messages_total "@);
    lemma_piece_stays(u7, decimal(m.channel_messages_total as nat));
    lemma_piece(t6, "\n# HELP ironclaw_channel_messages_total Total channel messages processed.\n# TYPE ironclaw_channel_messages_total counter\nironclaw_channel_messages_total "@, decimal(m.channel_messages_total as nat));
    let u8 = t7 + "\n# HELP ironclaw_heartbeat_ticks_total Total heartbeat ticks fired.\n# TYPE ironclaw_heartbeat_ticks_total counter\nironclaw_heartbeat_ticks_total "@;
    let t8 = u8 + decimal(m.heartbeat_ticks_total as nat);
    lemma_piece_stays(t7, "\n# HELP ironclaw_heartbeat_ticks_total Total heartbeat ticks fired.\n# TYPE ironclaw_heartbeat_ticks_total counter\nironclaw_heartbeat_ticks_total "@);
    lemma_piece_stays(u8, decimal(m.heartbeat_ticks_total as nat));
    lemma_piece(t7, "\n# HELP ironclaw_heartbeat_ticks_total Total heartbeat ticks fired.\n# TYPE ironclaw_heartbeat_ticks_total counter\nironclaw_heartbeat_ticks_total "@, decimal(m.heartbeat_ticks_total as nat));
    let u9 = t8 + "\n# HELP ironclaw_tokens_used_total Cumulative LLM tokens consumed.\n# TYPE ironclaw_tokens_used_total counter\nironclaw_tokens_used_total "@;
    let t9 = u9 + decimal(m.tokens_used_total as nat);
    lemma_piece_stays(t8, "\n# HELP ironclaw_tokens_used_total Cumulative LLM tokens consumed.\n# TYPE ironclaw_tokens_used_total counter\nironclaw_tokens_used_total "@);
    lemma_piece_stays(u9, decimal(m.tokens_used_total as nat));
    lemma_piece(t8, "\n# HELP ironclaw_tokens_used_total Cumulative LLM tokens consumed.\n# TYPE ironclaw_tokens_used_total counter\nironclaw_tokens_used_total "@, decimal(m.tokens_used_total as nat));
    let u10 = t9 + "\n# HELP ironclaw_request_latency_seconds Request latency histogram (sum/count).\n# TYPE ironclaw_request_latency_seconds summary\nironclaw_request_latency_seconds_sum "@;
    let t10 = u10 + latency_sum@;
    lemma_piece_stays(t9, "\n# HELP ironclaw_request_latency_seconds Request latency histogram (sum/count).\n# TYPE ironclaw_request_latency_seconds summary\nironclaw_request_latency_seconds_sum "@);
    lemma_piece_stays(u10, latency_sum@);
    lemma_piece(t9, "\n# HELP ironclaw_request_latency_seconds Request latency histogram (sum/count).\n# TYPE ironclaw_request_latency_seconds summary\nironclaw_request_latency_seconds_sum "@, latency_sum@);
    let u11 = t10 + "\nironclaw_request_latency_seconds_count "@;
    let t11 = u11 + decimal(m.request_latency_count as nat);
    lemma_piece_stays(t10, "\nironclaw_request_latency_seconds_count "@);
    lemma_piece_stays(u11, decimal(m.request_latency_count as nat));
    lemma_piece(t10, "\nironclaw_request_latency_seconds_count "@, decimal(m.request_latency_count as nat));
    let u12 = t11 + "\n# HELP ironclaw_active_jobs Current number of active agent jobs.\n# TYPE ironclaw_active_jobs gauge\nironclaw_active_jobs "@;
    let t12 = u12 + decimal(if m.active_jobs < 0 { 0 } else { m.active_jobs as nat });
    lemma_piece_stays(t11, "\n# HELP ironclaw_active_jobs Current number of active agent jobs.\n# TYPE ironclaw_active_jobs gauge\nironclaw_active_jobs "@);
    lemma_piece_stays(u12, decimal(if m.active_jobs < 0 { 0 } else { m.active_jobs as nat }));
    lemma_piece(t11, "\n# HELP ironclaw_active_jobs Current number of active agent jobs.\n# TYPE ironclaw_active_jobs gauge\nironclaw_active_jobs "@, decimal(if m.active_jobs < 0 { 0 } else { m.active_jobs as nat }));
    let u13 = t12 + "\n# HELP ironclaw_queue_depth Current agent message queue depth.\n# TYPE ironclaw_queue_depth gauge\nironclaw_queue_depth "@;
    let t13 = u13 + decimal(if m.queue_depth < 0 { 0 } else { m.queue_depth as nat });
    lemma_piece_stays(t12, "\n# HELP ironclaw_queue_depth Current agent message queue depth.\n# TYPE ironclaw_queue_depth gauge\nironclaw_queue_depth "@);
    lemma_piece_stays(u13, decimal(if m.queue_depth < 0 { 0 } else { m.queue_depth as nat }));
    lemma_piece(t12, "\n# HELP ironclaw_queue_depth Current agent message queue depth.\n# TYPE ironclaw_queue_depth gauge\nironclaw_queue_depth "@, decimal(if m.queue_depth < 0 { 0 } else { m.queue_depth as nat }));
    lemma_piece_stays(t13, "\n"@);
    assert(r@ == t13 + "\n"@);
    reveal_strlit("\n");
}

} // verus!
