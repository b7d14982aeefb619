use ironclaw::hooks::hook::{HookCategory, HookEvent, HookOutcome, HookPoint};
use ironclaw::hooks::webhook_audit::{hash_content, webhook_record, WebhookAuditHook};
use ironclaw::json::JsonValue;
use ironclaw::time::Timestamp;

fn inbound(channel: &str) -> HookEvent {
    HookEvent::Inbound {
        user_id: "u".to_string(),
        channel: channel.to_string(),
        content: "abc".to_string(),
    }
}

#[test]
fn hashes_are_sha256() {
    assert_eq!(
        hash_content("abc"),
        "ba7816bf8f01cfea414140de5dae2223b00361a396177a9cb410ff61f20015ad"
    );
    assert_eq!(
        hash_content(""),
        "e3b0c44298fc1c149afbf4c8996fb92427ae41e4649b934ca495991b7852b855"
    );
}

#[test]
fn webhooks_are_recorded() {
    let at = Timestamp { secs: 7, nanos: 8 };
    let r = webhook_record(&inbound("webhook"), 42, at).expect("a record");
    assert_eq!(r.id, 42);
    assert_eq!(r.received_at, at);
    assert_eq!(r.channel, "webhook");
    assert_eq!(r.hmac_valid, Some(true));
    assert_eq!(r.payload_hash, hash_content("abc"));
    assert_eq!(r.user_id, "u");
    assert!(webhook_record(&inbound("telegram"), 42, at).is_none());
    let call = HookEvent::ToolCall {
        tool_name: "t".to_string(),
        parameters: JsonValue::Null,
        user_id: "u".to_string(),
        context: "webhook".to_string(),
    };
    assert!(webhook_record(&call, 42, at).is_none());
}

#[test]
fn hook_never_holds_a_message_up() {
    let hook = WebhookAuditHook::new("db");
    assert_eq!(hook.name(), "webhook_audit");
    assert_eq!(hook.hook_points(), vec![HookPoint::BeforeInbound]);
    assert_eq!(hook.category(), HookCategory::Audit);
    assert_eq!(*hook.db(), "db");
    let (record, outcome) = hook.execute(&inbound("webhook"));
    let (again, _) = hook.execute(&inbound("webhook"));
    assert!(matches!(outcome, HookOutcome::Continue));
    let (record, again) = (record.expect("a record"), again.expect("a record"));
    assert!(record.id != again.id);
    assert!(record.received_at.is_valid());
    let (none, outcome) = hook.execute(&inbound("cli"));
    assert!(none.is_none());
    assert!(matches!(outcome, HookOutcome::Continue));
}
