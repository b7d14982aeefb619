//! The hook that records every received webhook.

use vstd::prelude::*;
use crate::db::webhook_audit::{WebhookEventRecord, WebhookView};
use crate::hooks::hook::{HookCategory, HookEvent, HookOutcome, HookPoint};
use crate::ids::fresh_id;
use crate::text::{hex_char, hex_of, hex_text, hex_value, same_text};
use crate::time::{now, Timestamp};

verus! {

broadcast use vstd::string::group_string_axioms;

/// The SHA-256 digest of some bytes.
pub uninterp spec fn sha256_of(data: Seq<u8>) -> Seq<u8>;

/// `sha2::Sha256::digest`: the 32 bytes of the SHA-256 digest, which depend on
/// the data alone.
#[verifier::external_body]
fn sha256(data: &[u8]) -> (r: Vec<u8>)
    ensures
        r@ == sha256_of(data@),
        r@.len() == 32,
{
    <sha2::Sha256 as sha2::Digest>::digest(data).to_vec()
}

/// The hash under which a content is recorded: the digest of its UTF-8 bytes
/// in lower-case hexadecimal.
pub open spec fn content_hash(content: Seq<char>) -> Seq<char> {
    hex_of(sha256_of(vstd::utf8::encode_utf8(content)))
}

/// Hashes a content for the record.
pub fn hash_content(content: &str) -> (r: String)
    ensures
        r@ == content_hash(content@),
        r@.len() == 64,
{
    let digest: Vec<u8> = sha256(content.as_bytes());
    hex_text(&digest)
}

/// The record of an event, where it is a message that came over the webhook
/// channel: its signature was checked before any hook ran.
pub open spec fn webhook_record_of(event: HookEvent, id: u128, at: Timestamp) -> Option<
    WebhookView,
> {
    match event {
        HookEvent::Inbound { user_id, channel, content } => if channel@ == "webhook"@ {
            Some(
                WebhookView {
                    id,
                    received_at: at,
                    channel: channel@,
                    hmac_valid: Some(true),
                    payload_hash: content_hash(content@),
                    user_id: user_id@,
                },
            )
        } else {
            None
        },
        _ => None,
    }
}

/// What an optional record holds.
pub open spec fn opt_webhook(r: Option<WebhookEventRecord>) -> Option<WebhookView> {
    match r {
        Some(record) => Some(record@),
        None => None,
    }
}

/// Builds the record of an event under a given identifier and time.
pub fn webhook_record(event: &HookEvent, id: u128, at: Timestamp) -> (r: Option<
    WebhookEventRecord,
>)
    ensures
        opt_webhook(r) == webhook_record_of(*event, id, at),
{
    match event {
        HookEvent::Inbound { user_id, channel, content } => {
            if !same_text(channel.as_str(), "webhook") {
                return None;
            }
            Some(
                WebhookEventRecord {
                    id,
                    received_at: at,
                    channel: channel.clone(),
                    hmac_valid: Some(true),
                    payload_hash: hash_content(content.as_str()),
                    user_id: user_id.clone(),
                },
            )
        },
        _ => None,
    }
}

/// Records received webhooks in the store `db`.
#[derive(Debug)]
pub struct WebhookAuditHook<D> {
    db: D,
}

impl<D> WebhookAuditHook<D> {
    /// The store that the hook writes to.
    pub closed spec fn store(self) -> D {
        self.db
    }

    /// A hook that writes to `db`.
    pub fn new(db: D) -> (r: WebhookAuditHook<D>)
        ensures
            r.store() == db,
    {
        WebhookAuditHook { db }
    }

    /// The store that the hook writes to.
    pub fn db(&self) -> (r: &D)
        ensures
            *r == self.store(),
    {
        &self.db
    }

    /// The hook's name.
    pub fn name(&self) -> (r: &'static str)
        ensures
            r@ == "webhook_audit"@,
    {
        "webhook_audit"
    }

    /// The hook runs before a message comes in.
    pub fn hook_points(&self) -> (r: Vec<HookPoint>)
        ensures
            r@ == seq![HookPoint::BeforeInbound],
    {
        let mut points: Vec<HookPoint> = Vec::new();
        points.push(HookPoint::BeforeInbound);
        points
    }

    /// The hook is for the audit.
    pub fn category(&self) -> (r: HookCategory)
        ensures
            r == HookCategory::Audit,
    {
        HookCategory::Audit
    }

    /// The record to write for an event, under a fresh identifier and the
    /// current time, and the outcome: the hook never holds a message up.
    pub fn execute(&self, event: &HookEvent) -> (r: (Option<WebhookEventRecord>, HookOutcome))
        ensures
            r.1 is Continue,
            r.0 is Some == webhook_record_of(*event, 0, (Timestamp { secs: 0, nanos: 0 })) is Some,
            r.0 is Some ==> r.0->0.received_at.valid() && opt_webhook(r.0) == webhook_record_of(
                *event,
                r.0->0.id,
                r.0->0.received_at,
            ),
    {
        let record = webhook_record(event, fresh_id(), now());
        (record, HookOutcome::Continue)
    }
}

// ── Laws ────────────────────────────────────────────────────

/// Only messages of the webhook channel are recorded, and all of them are.
pub proof fn law_only_webhooks_are_recorded(event: HookEvent, id: u128, at: Timestamp)
    ensures
        webhook_record_of(event, id, at) is Some <==> (event matches HookEvent::Inbound {
            user_id,
            channel,
            content,
        } && channel@ == "webhook"@),
{
}

/// A content is recorded by 64 lower-case hexadecimal digits, which tell the 32
/// bytes of its SHA-256 digest, two for each in order.
pub proof fn law_contents_are_hashed(content: &str, r: String, i: int)
    requires
        call_ensures(hash_content, (content,), r),
        0 <= i < 32,
    ensures
        r@.len() == 64,
        ({
            let byte = sha256_of(vstd::utf8::encode_utf8(content@))[i];
            &&& hex_value(r@[2 * i]) >= 0 && hex_value(r@[2 * i + 1]) >= 0
            &&& 16 * hex_value(r@[2 * i]) + hex_value(r@[2 * i + 1]) == byte
        }),
{
    let b = sha256_of(vstd::utf8::encode_utf8(content@))[i];
    assert((2 * i) % 2 == 0 && (2 * i) / 2 == i);
    assert((2 * i + 1) % 2 == 1 && (2 * i + 1) / 2 == i);
    assert(r@[2 * i] == hex_char((b / 16) as nat));
    assert(r@[2 * i + 1] == hex_char((b % 16) as nat));
    assert(b / 16 < 16);
}

/// A message of the webhook channel is recorded under the given identifier and
/// time, with its user, the hash of its content and a good signature; nothing
/// else is recorded.
pub proof fn law_webhooks_are_recorded(
    event: HookEvent,
    id: u128,
    at: Timestamp,
    r: Option<WebhookEventRecord>,
    text: &str,
    hash: String,
)
    requires
        call_ensures(webhook_record, (&event, id, at), r),
        event matches HookEvent::Inbound { user_id, channel, content } ==> text@ == content@,
        call_ensures(hash_content, (text,), hash),
    ensures
        r is Some <==> (event matches HookEvent::Inbound { user_id, channel, content } && channel@
            == "webhook"@),
        r matches Some(x) ==> (event matches HookEvent::Inbound { user_id, channel, content }
            && x.id == id && x.received_at == at && x.channel@ == "webhook"@ && x.hmac_valid
            == Some(true) && x.payload_hash@ == hash@ && x.user_id@ == user_id@),
{
    if let Some(x) = r {
        assert(x@.id == x.id && x@.received_at == x.received_at && x@.hmac_valid == x.hmac_valid);
    }
}

/// The hook runs before messages come in, is for the audit, and lets every
/// message through, recorded or not.
pub proof fn law_hook_never_holds_up<D>(
    db: D,
    hook: WebhookAuditHook<D>,
    event: HookEvent,
    r: (Option<WebhookEventRecord>, HookOutcome),
    store: &D,
    name: &str,
    points: Vec<HookPoint>,
    category: HookCategory,
)
    requires
        call_ensures(WebhookAuditHook::<D>::new, (db,), hook),
        call_ensures(WebhookAuditHook::<D>::execute, (&hook, &event), r),
        call_ensures(WebhookAuditHook::<D>::db, (&hook,), store),
        call_ensures(WebhookAuditHook::<D>::name, (&hook,), name),
        call_ensures(WebhookAuditHook::<D>::hook_points, (&hook,), points),
        call_ensures(WebhookAuditHook::<D>::category, (&hook,), category),
    ensures
        *store == db,
        name@ == "webhook_audit"@,
        points@.len() == 1 && points@[0] is BeforeInbound,
        category is Audit,
        r.1 is Continue,
        r.0 is Some <==> (event matches HookEvent::Inbound { user_id, channel, content }
            && channel@ == "webhook"@),
        r.0 matches Some(x) ==> (event matches HookEvent::Inbound { user_id, channel, content }
            && x.channel@ == channel@ && x.user_id@ == user_id@ && x.hmac_valid == Some(true)),
{
    if let Some(x) = r.0 {
        assert(x@.channel == x.channel@ && x@.hmac_valid == x.hmac_valid);
    }
}

} // verus!
