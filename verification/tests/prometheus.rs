use ironclaw::observability::prometheus::{
    duration_to_nanos, ObserverEvent, ObserverMetric, PrometheusMetrics, PrometheusObserver,
};
use ironclaw::time::Duration;

#[test]
fn counters_increment() {
    let mut obs = PrometheusObserver::new();
    obs.record_event(&ObserverEvent::LlmRequest {
        provider: "test".to_string(),
        model: "m".to_string(),
        message_count: 1,
    });
    obs.record_event(&ObserverEvent::LlmResponse {
        provider: "test".to_string(),
        model: "m".to_string(),
        duration: Duration::from_millis(100),
        success: true,
        error_message: None,
    });
    obs.record_event(&ObserverEvent::TurnComplete);
    obs.record_metric(&ObserverMetric::TokensUsed(500));

    assert_eq!(obs.metrics.llm_requests_total, 1);
    assert_eq!(obs.metrics.llm_responses_ok_total, 1);
    assert_eq!(obs.metrics.agent_turns_total, 1);
    assert_eq!(obs.metrics.tokens_used_total, 500);
}

#[test]
fn render_produces_valid_prometheus_text() {
    let mut obs = PrometheusObserver::new();
    obs.record_event(&ObserverEvent::HeartbeatTick);
    obs.record_metric(&ObserverMetric::ActiveJobs(3));
    let output = obs.metrics.render("0");
    assert!(output.contains("ironclaw_heartbeat_ticks_total 1"));
    assert!(output.contains("ironclaw_active_jobs 3"));
    assert!(output.contains("# TYPE ironclaw_llm_requests_total counter"));
}

#[test]
fn observer_name_is_prometheus() {
    let obs = PrometheusObserver::new();
    assert_eq!(obs.name(), "prometheus");
}

#[test]
fn exposition_is_exact() {
    let m = PrometheusMetrics {
        llm_requests_total: 1,
        llm_responses_ok_total: 2,
        llm_responses_err_total: 3,
        tool_calls_total: 9,
        tool_calls_ok_total: 4,
        tool_calls_err_total: 5,
        agent_turns_total: 6,
        channel_messages_total: 7,
        heartbeat_ticks_total: 8,
        tokens_used_total: 10,
        request_latency_ns_total: 1_500_000_000,
        request_latency_count: 11,
        active_jobs: 12,
        queue_depth: -1,
    };
    let seconds = m.request_latency_ns_total as f64 / 1_000_000_000.0;
    let want = "# HELP ironclaw_llm_requests_total Total LLM requests sent.\n\
         # TYPE ironclaw_llm_requests_total counter\n\
         ironclaw_llm_requests_total 1\n\
         # HELP ironclaw_llm_responses_total Total LLM responses received.\n\
         # TYPE ironclaw_llm_responses_total counter\n\
         ironclaw_llm_responses_total{result=\"ok\"} 2\n\
         ironclaw_llm_responses_total{result=\"err\"} 3\n\
         # HELP ironclaw_tool_calls_total Total tool calls executed.\n\
         # TYPE ironclaw_tool_calls_total counter\n\
         ironclaw_tool_calls_total{result=\"ok\"} 4\n\
         ironclaw_tool_calls_total{result=\"err\"} 5\n\
         # HELP ironclaw_agent_turns_total Total agent reasoning turns completed.\n\
         # TYPE ironclaw_agent_turns_total counter\n\
         ironclaw_agent_turns_total 6\n\
         # HELP ironclaw_channel_messages_total Total channel messages processed.\n\
         # TYPE ironclaw_channel_messages_total counter\n\
         ironclaw_channel_messages_total 7\n\
         # HELP ironclaw_heartbeat_ticks_total Total heartbeat ticks fired.\n\
         # TYPE ironclaw_heartbeat_ticks_total counter\n\
         ironclaw_heartbeat_ticks_total 8\n\
         # HELP ironclaw_tokens_used_total Cumulative LLM tokens consumed.\n\
         # TYPE ironclaw_tokens_used_total counter\n\
         ironclaw_tokens_used_total 10\n\
         # HELP ironclaw_request_latency_seconds Request latency histogram (sum/count).\n\
         # TYPE ironclaw_request_latency_seconds summary\n\
         ironclaw_request_latency_seconds_sum 1.5\n\
         ironclaw_request_latency_seconds_count 11\n\
         # HELP ironclaw_active_jobs Current number of active agent jobs.\n\
         # TYPE ironclaw_active_jobs gauge\n\
         ironclaw_active_jobs 12\n\
         # HELP ironclaw_queue_depth Current agent message queue depth.\n\
         # TYPE ironclaw_queue_depth gauge\n\
         ironclaw_queue_depth 0\n";
    assert_eq!(m.render(&format!("{seconds}")), want);
}

#[test]
fn nanoseconds_saturate() {
    assert_eq!(duration_to_nanos(&Duration { secs: 2, nanos: 5 }), 2_000_000_005);
    assert_eq!(duration_to_nanos(&Duration { secs: u64::MAX, nanos: 5 }), u64::MAX);
    assert_eq!(duration_to_nanos(&Duration { secs: 18_446_744_073, nanos: 709_551_615 }), u64::MAX);
    assert_eq!(
        duration_to_nanos(&Duration { secs: 18_446_744_073, nanos: 709_551_614 }),
        u64::MAX - 1
    );
}

#[test]
fn counters_wrap_and_tool_calls_add_up() {
    let mut obs = PrometheusObserver::new();
    obs.metrics.tokens_used_total = u64::MAX;
    obs.record_metric(&ObserverMetric::TokensUsed(2));
    assert_eq!(obs.metrics.tokens_used_total, 1);
    for success in [true, false, true] {
        obs.record_event(&ObserverEvent::ToolCallEnd {
            tool: "t".to_string(),
            duration: Duration::zero(),
            success,
        });
    }
    assert_eq!(obs.metrics.tool_calls_total, 3);
    assert_eq!(obs.metrics.tool_calls_ok_total, 2);
    assert_eq!(obs.metrics.tool_calls_err_total, 1);
    obs.record_metric(&ObserverMetric::ActiveJobs(u64::MAX));
    assert_eq!(obs.metrics.active_jobs, -1);
    assert!(obs.metrics.render("0").contains("ironclaw_active_jobs 0\n"));
}

#[test]
fn negative_gauges_are_shown_as_zero() {
    let m = PrometheusMetrics { active_jobs: -3, queue_depth: 4, ..PrometheusMetrics::default() };
    let text = m.render("0");
    assert!(text.contains("ironclaw_active_jobs 0\n"));
    assert!(text.contains("ironclaw_queue_depth 4\n"));
}

#[test]
fn events_and_metrics_commute() {
    let event = ObserverEvent::ChannelMessage { channel: "c".to_string(), direction: "in".to_string() };
    let metric = ObserverMetric::RequestLatency(Duration::from_millis(1500));
    let mut a = PrometheusObserver::new();
    a.record_event(&event);
    a.record_metric(&metric);
    let mut b = PrometheusObserver::new();
    b.record_metric(&metric);
    b.record_event(&event);
    assert_eq!(a.metrics, b.metrics);
    assert_eq!(a.metrics.request_latency_ns_total, 1_500_000_000);
    assert_eq!(a.metrics.request_latency_count, 1);
    b.record_event(&ObserverEvent::Other { label: "agent_start".to_string() });
    assert_eq!(a.metrics, b.metrics);
}
