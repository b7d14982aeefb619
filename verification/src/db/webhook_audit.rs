//! The log of received webhooks.

use vstd::prelude::*;
use crate::db::sql::{
    error_text, sql_views, DatabaseError, SqlValue, SqlView, Statement, StatementView,
};
use crate::db::table::{answers, count_rows, older};
use crate::ids::{id_form, id_text, parse_id, parsed_id};
use crate::text::text_before;
use crate::time::Timestamp;

verus! {

broadcast use vstd::string::group_string_axioms;

/// One received webhook.
#[derive(Debug)]
pub struct WebhookEventRecord {
    pub id: u128,
    pub received_at: Timestamp,
    pub channel: String,
    pub hmac_valid: Option<bool>,
    pub payload_hash: String,
    pub user_id: String,
}

/// What a record holds.
pub ghost struct WebhookView {
    pub id: u128,
    pub received_at: Timestamp,
    pub channel: Seq<char>,
    pub hmac_valid: Option<bool>,
    pub payload_hash: Seq<char>,
    pub user_id: Seq<char>,
}

impl View for WebhookEventRecord {
    type V = WebhookView;

    open spec fn view(&self) -> WebhookView {
        WebhookView {
            id: self.id,
            received_at: self.received_at,
            channel: self.channel@,
            hmac_valid: self.hmac_valid,
            payload_hash: self.payload_hash@,
            user_id: self.user_id@,
        }
    }
}

/// A truth value as the store keeps it: 1 or 0, `NULL` where unknown.
pub open spec fn flag_value(flag: Option<bool>) -> SqlView {
    match flag {
        Some(b) => SqlView::Integer(
            if b {
                1
            } else {
                0
            },
        ),
        None => SqlView::Null,
    }
}

/// The insertion of a record, whose time the store writes as `received_at`.
pub open spec fn webhook_insert_of(r: WebhookView, received_at: Seq<char>) -> StatementView {
    StatementView {
        sql: "INSERT INTO webhook_events (id, received_at, channel, hmac_valid, payload_hash, user_id) VALUES (?1, ?2, ?3, ?4, ?5, ?6) ON CONFLICT (id) DO NOTHING"@,
        params: seq![
            SqlView::Text(id_form(r.id)),
            SqlView::Text(received_at),
            SqlView::Text(r.channel),
            flag_value(r.hmac_valid),
            SqlView::Text(r.payload_hash),
            SqlView::Text(r.user_id),
        ],
    }
}

/// The statement that inserts a record; a record that is there already stays
/// as it is. `received_at` is the record's time as the store writes it.
pub fn insert_webhook_event(record: &WebhookEventRecord, received_at: &str) -> (r: Statement)
    ensures
        r@ == webhook_insert_of(record@, received_at@),
{
    let mut params: Vec<SqlValue> = Vec::new();
    params.push(SqlValue::Text(id_text(record.id)));
    params.push(SqlValue::Text(received_at.to_string()));
    params.push(SqlValue::Text(record.channel.clone()));
    params.push(
        match record.hmac_valid {
            Some(b) => SqlValue::Integer(
                if b {
                    1
                } else {
                    0
                },
            ),
            None => SqlValue::Null,
        },
    );
    params.push(SqlValue::Text(record.payload_hash.clone()));
    params.push(SqlValue::Text(record.user_id.clone()));
    assert(sql_views(params@) =~= webhook_insert_of(record@, received_at@).params);
    Statement {
        sql: "INSERT INTO webhook_events (id, received_at, channel, hmac_valid, payload_hash, user_id) VALUES (?1, ?2, ?3, ?4, ?5, ?6) ON CONFLICT (id) DO NOTHING".to_string(),
        params,
    }
}

/// The query for a user's webhooks.
pub open spec fn webhook_query_of(user_id: Seq<char>, limit: int) -> StatementView {
    StatementView {
        sql: "SELECT id, received_at, channel, hmac_valid, payload_hash, user_id FROM webhook_events WHERE user_id = ?1 ORDER BY received_at DESC LIMIT ?2"@,
        params: seq![SqlView::Text(user_id), SqlView::Integer(limit)],
    }
}

/// The query for a user's webhooks, newest first and at most `limit` of them.
pub fn list_webhook_events(user_id: &str, limit: i64) -> (r: Statement)
    ensures
        r@ == webhook_query_of(user_id@, limit as int),
{
    let mut params: Vec<SqlValue> = Vec::new();
    params.push(SqlValue::Text(user_id.to_string()));
    params.push(SqlValue::Integer(limit));
    assert(sql_views(params@) =~= seq![SqlView::Text(user_id@), SqlView::Integer(limit as int)]);
    Statement {
        sql: "SELECT id, received_at, channel, hmac_valid, payload_hash, user_id FROM webhook_events WHERE user_id = ?1 ORDER BY received_at DESC LIMIT ?2".to_string(),
        params,
    }
}

/// One row of the log, with its time and its flag read.
#[derive(Debug)]
pub struct WebhookRow {
    pub id: String,
    pub received_at: Timestamp,
    pub channel: String,
    pub hmac_valid: Option<bool>,
    pub payload_hash: String,
    pub user_id: String,
}

/// The record of a row under the identifier `id`.
pub open spec fn webhook_of_row(row: WebhookRow, id: u128) -> WebhookView {
    WebhookView {
        id,
        received_at: row.received_at,
        channel: row.channel@,
        hmac_valid: row.hmac_valid,
        payload_hash: row.payload_hash@,
        user_id: row.user_id@,
    }
}

/// The row holds what `webhook_insert_of` writes for the record `w`.
pub open spec fn webhook_row_holds(row: WebhookRow, w: WebhookView) -> bool {
    row.id@ == id_form(w.id) && webhook_of_row(row, w.id) == w
}

/// Reads a row; an identifier that cannot be read is an error with its
/// message. A row that holds what was written for a record gives it back.
pub fn read_webhook_row(row: WebhookRow) -> (r: Result<WebhookEventRecord, DatabaseError>)
    ensures
        (match parsed_id(row.id@) {
            Ok(id) => r is Ok && r->Ok_0@ == webhook_of_row(row, id),
            Err(message) => r is Err && error_text(r->Err_0) == message,
        }),
        forall|w: WebhookView| #[trigger]
            webhook_row_holds(row, w) ==> r is Ok && r->Ok_0@ == w,
{
    let parsed = parse_id(row.id.as_str());
    proof {
        assert forall|w: WebhookView| #[trigger] webhook_row_holds(row, w) implies parsed is Ok
            && parsed->Ok_0 == w.id by {
            assert(row.id@ == id_form(w.id));
        }
    }
    match parsed {
        Ok(id) => Ok(
            WebhookEventRecord {
                id,
                received_at: row.received_at,
                channel: row.channel,
                hmac_valid: row.hmac_valid,
                payload_hash: row.payload_hash,
                user_id: row.user_id,
            },
        ),
        Err(message) => Err(DatabaseError::Query(message)),
    }
}

// ── The log over several insertions ─────────────────────────

/// Some row of the table is kept under this identifier.
pub open spec fn has_row(table: Seq<Seq<SqlView>>, id: SqlView) -> bool {
    exists|k: int| 0 <= k < table.len() && (#[trigger] table[k])[0] == id
}

/// The rows of an empty table after these insertions, oldest first: each
/// statement adds its values as a row, and does nothing where its identifier
/// is there already.
pub open spec fn rows_after(inserts: Seq<StatementView>) -> Seq<Seq<SqlView>>
    decreases inserts.len(),
{
    if inserts.len() == 0 {
        seq![]
    } else {
        let table = rows_after(inserts.drop_last());
        if has_row(table, inserts.last().params[0]) {
            table
        } else {
            table.push(inserts.last().params)
        }
    }
}

/// The rows of a user.
pub open spec fn rows_of_user(user_id: SqlView) -> spec_fn(Seq<SqlView>) -> bool {
    |row: Seq<SqlView>| row[5] == user_id
}

/// The rows at the positions `picks` answer a user's query.
pub open spec fn query_answered(
    query: StatementView,
    table: Seq<Seq<SqlView>>,
    picks: Seq<int>,
) -> bool {
    answers(table, rows_of_user(query.params[0]), 1, query.params[1]->Integer_0, picks)
}

/// What is read from the columns of a row, where `time_of` reads times.
pub open spec fn row_reads(
    row: WebhookRow,
    columns: Seq<SqlView>,
    time_of: spec_fn(Seq<char>) -> Timestamp,
) -> bool {
    &&& columns[0] == SqlView::Text(row.id@)
    &&& columns[1] is Text
    &&& row.received_at == time_of(columns[1]->Text_0)
    &&& columns[2] == SqlView::Text(row.channel@)
    &&& columns[3] == flag_value(row.hmac_valid)
    &&& columns[4] == SqlView::Text(row.payload_hash@)
    &&& columns[5] == SqlView::Text(row.user_id@)
}

/// Record `n` is the first under its identifier.
pub open spec fn is_first(records: Seq<WebhookView>, n: int) -> bool {
    &&& 0 <= n < records.len()
    &&& forall|m: int| 0 <= m < n ==> (#[trigger] records[m]).id != records[n].id
}

/// The positions of the records that are the first under their identifiers.
pub open spec fn firsts(records: Seq<WebhookView>) -> Seq<int>
    decreases records.len(),
{
    if records.len() == 0 {
        seq![]
    } else {
        let n = records.len() - 1;
        if is_first(records, n) {
            firsts(records.drop_last()).push(n)
        } else {
            firsts(records.drop_last())
        }
    }
}

/// How many identifiers were first inserted for a user.
pub open spec fn log_size(records: Seq<WebhookView>, user_id: Seq<char>) -> nat
    decreases records.len(),
{
    if records.len() == 0 {
        0
    } else {
        log_size(records.drop_last(), user_id) + (if is_first(records, records.len() - 1)
            && records.last().user_id == user_id {
            1nat
        } else {
            0nat
        })
    }
}

/// The statements are the insertions of the records with these times.
pub open spec fn are_inserts(
    inserts: Seq<StatementView>,
    records: Seq<WebhookView>,
    times: Seq<Seq<char>>,
) -> bool {
    &&& inserts.len() == records.len()
    &&& times.len() == records.len()
    &&& forall|n: int|
        0 <= n < records.len() ==> #[trigger] inserts[n] == webhook_insert_of(
            records[n],
            times[n],
        )
}

/// What the log keeps of record `n`: its time as it was written.
pub open spec fn logged(
    records: Seq<WebhookView>,
    times: Seq<Seq<char>>,
    time_of: spec_fn(Seq<char>) -> Timestamp,
    n: int,
) -> WebhookView {
    WebhookView { received_at: time_of(times[n]), ..records[n] }
}

proof fn lemma_firsts(records: Seq<WebhookView>)
    ensures
        forall|k: int|
            0 <= k < firsts(records).len() ==> is_first(records, #[trigger] firsts(records)[k]),
        forall|n: int| #[trigger] is_first(records, n) ==> firsts(records).contains(n),
        forall|k: int, l: int|
            0 <= k < l < firsts(records).len() ==> #[trigger] firsts(records)[k] < #[trigger] firsts(
                records,
            )[l],
    decreases records.len(),
{
    if records.len() > 0 {
        let rest = records.drop_last();
        let n = records.len() - 1;
        lemma_firsts(rest);
        let old_list = firsts(rest);
        let list = firsts(records);
        assert forall|k: int| 0 <= k < list.len() implies is_first(records, #[trigger] list[k]) by {
            if k < old_list.len() {
                assert(is_first(rest, old_list[k]));
                assert(forall|m: int| 0 <= m < old_list[k] ==> rest[m] == #[trigger] records[m]);
            }
        }
        assert forall|m: int| #[trigger] is_first(records, m) implies list.contains(m) by {
            if m < n {
                assert(forall|l: int| 0 <= l < n ==> rest[l] == #[trigger] records[l]);
                assert(is_first(rest, m));
                let k = old_list.index_of(m);
                assert(list[k] == m);
            } else {
                assert(list[list.len() - 1] == m);
            }
        }
        assert forall|k: int, l: int| 0 <= k < l < list.len() implies #[trigger] list[k]
            < #[trigger] list[l] by {
            if l == old_list.len() {
                assert(is_first(rest, old_list[k]));
            }
        }
    }
}

/// Every identifier among the records has a first record.
proof fn lemma_has_first(records: Seq<WebhookView>, n: int)
    requires
        0 <= n < records.len(),
    ensures
        exists|m: int| is_first(records, m) && records[m].id == records[n].id,
    decreases n,
{
    if !is_first(records, n) {
        let m = choose|m: int| 0 <= m < n && (#[trigger] records[m]).id == records[n].id;
        lemma_has_first(records, m);
    }
}

/// The table holds a row for each first record, in order, and no other.
proof fn lemma_rows(
    inserts: Seq<StatementView>,
    records: Seq<WebhookView>,
    times: Seq<Seq<char>>,
    user_id: Seq<char>,
)
    requires
        are_inserts(inserts, records, times),
    ensures
        rows_after(inserts).len() == firsts(records).len(),
        forall|k: int|
            0 <= k < firsts(records).len() ==> #[trigger] rows_after(inserts)[k]
                == webhook_insert_of(records[firsts(records)[k]], times[firsts(records)[k]]).params,
        count_rows(rows_after(inserts), rows_of_user(SqlView::Text(user_id))) == log_size(records, user_id),
    decreases records.len(),
{
    if records.len() > 0 {
        let n = records.len() - 1;
        let rest = records.drop_last();
        let before = inserts.drop_last();
        let table = rows_after(before);
        let row = inserts.last().params;
        assert(inserts[n] == webhook_insert_of(records[n], times[n]));
        assert forall|m: int| 0 <= m < rest.len() implies #[trigger] before[m]
            == webhook_insert_of(rest[m], times.drop_last()[m]) by {
            assert(inserts[m] == webhook_insert_of(records[m], times[m]));
        }
        lemma_rows(before, rest, times.drop_last(), user_id);
        lemma_firsts(rest);
        let list = firsts(rest);
        if has_row(table, row[0]) {
            let k = choose|k: int| 0 <= k < table.len() && (#[trigger] table[k])[0] == row[0];
            assert(table[k] == webhook_insert_of(rest[list[k]], times.drop_last()[list[k]]).params);
            assert(is_first(rest, list[k]));
            crate::ids::law_id_forms_are_distinct(rest[list[k]].id, records[n].id);
            assert(records[list[k]].id == records[n].id);
            assert(!is_first(records, n));
        } else {
            if !is_first(records, n) {
                let m = choose|m: int| 0 <= m < n && (#[trigger] records[m]).id == records[n].id;
                assert(rest[m] == records[m]);
                lemma_has_first(rest, m);
                let f = choose|f: int| is_first(rest, f) && rest[f].id == rest[m].id;
                let k = list.index_of(f);
                assert(list.contains(f));
                assert(table[k][0] == row[0]);
            }
            assert(rows_after(inserts).drop_last() =~= table);
        }
        assert forall|k: int| 0 <= k < firsts(records).len() implies #[trigger] rows_after(
            inserts,
        )[k] == webhook_insert_of(
            records[firsts(records)[k]],
            times[firsts(records)[k]],
        ).params by {
            if k < list.len() {
                assert(table[k] == webhook_insert_of(rest[list[k]], times.drop_last()[list[k]]).params);
                assert(is_first(rest, list[k]));
            }
        }
    }
}

// ── Laws ────────────────────────────────────────────────────

/// The webhook log over any insertions, in a database that does what the
/// statements say. From an empty table, `records` are inserted with their times
/// written as `times`; `picks` are the rows that answer a user's query, `rows`
/// what is read from their columns, and `read` what comes of reading the rows.
/// Written times are read by `time_of`, and sort as texts as they do as times.
///
/// Then every record is read; each is one of that user's, as it was first
/// inserted under its identifier; no identifier comes twice; they come newest
/// first; there are as many as identifiers were first inserted for the user, up
/// to the limit; and none that is left out is newer than one that is read.
pub proof fn law_webhook_log(
    records: Seq<WebhookView>,
    times: Seq<Seq<char>>,
    time_of: spec_fn(Seq<char>) -> Timestamp,
    inserts: Seq<StatementView>,
    user_id: Seq<char>,
    limit: int,
    picks: Seq<int>,
    rows: Seq<WebhookRow>,
    read: Seq<Result<WebhookEventRecord, DatabaseError>>,
)
    requires
        are_inserts(inserts, records, times),
        forall|n: int, m: int|
            0 <= n < times.len() && 0 <= m < times.len() && !(#[trigger] text_before(
                times[n],
                times[m],
            )) ==> !time_of(times[n]).before(time_of(times[m])),
        0 <= limit,
        query_answered(webhook_query_of(user_id, limit), rows_after(inserts), picks),
        rows.len() == picks.len(),
        forall|i: int|
            0 <= i < rows.len() ==> row_reads(
                #[trigger] rows[i],
                rows_after(inserts)[picks[i]],
                time_of,
            ),
        read.len() == rows.len(),
        forall|i: int, w: WebhookView|
            0 <= i < rows.len() && #[trigger] webhook_row_holds(rows[i], w) ==> read[i] is Ok
                && read[i]->Ok_0@ == w,
    ensures
        forall|i: int|
            0 <= i < read.len() ==> (#[trigger] read[i]) is Ok && exists|n: int|
                is_first(records, n) && records[n].user_id == user_id && read[i]->Ok_0@ == #[trigger]
                    logged(records, times, time_of, n),
        forall|i: int, j: int|
            0 <= i < j < read.len() ==> (#[trigger] read[i])->Ok_0.id != (#[trigger] read[j])->Ok_0.id
                && !read[i]->Ok_0.received_at.before(read[j]->Ok_0.received_at),
        read.len() == (if limit < log_size(records, user_id) {
            limit
        } else {
            log_size(records, user_id) as int
        }),
        forall|i: int, n: int|
            0 <= i < read.len() && is_first(records, n) && records[n].user_id == user_id && (forall|
                j: int,
            |
                0 <= j < read.len() ==> (#[trigger] read[j])->Ok_0.id != records[n].id) ==> !(
            #[trigger] read[i])->Ok_0.received_at.before(
                (#[trigger] logged(records, times, time_of, n)).received_at,
            ),
{
    let table = rows_after(inserts);
    let list = firsts(records);
    lemma_rows(inserts, records, times, user_id);
    lemma_firsts(records);
    assert forall|i: int| 0 <= i < read.len() implies (#[trigger] read[i]) is Ok && is_first(
        records,
        list[picks[i]],
    ) && records[list[picks[i]]].user_id == user_id && read[i]->Ok_0@ == logged(
        records,
        times,
        time_of,
        list[picks[i]],
    ) by {
        let n = list[picks[i]];
        assert(0 <= picks[i] < table.len());
        assert(table[picks[i]] == webhook_insert_of(records[n], times[n]).params);
        assert(row_reads(rows[i], table[picks[i]], time_of));
        let w = logged(records, times, time_of, n);
        assert(rows[i].hmac_valid == records[n].hmac_valid);
        assert(webhook_row_holds(rows[i], w));
    }
    assert forall|i: int, j: int| 0 <= i < j < read.len() implies (#[trigger] read[i])->Ok_0.id != (
    #[trigger] read[j])->Ok_0.id && !read[i]->Ok_0.received_at.before(
        read[j]->Ok_0.received_at,
    ) by {
        let (n, m) = (list[picks[i]], list[picks[j]]);
        assert(read[i]->Ok_0@ == logged(records, times, time_of, n));
        assert(read[j]->Ok_0@ == logged(records, times, time_of, m));
        assert(picks[i] != picks[j]);
        assert(!older(table, 1, picks[i], picks[j]));
        assert(table[picks[i]] == webhook_insert_of(records[n], times[n]).params);
        assert(table[picks[j]] == webhook_insert_of(records[m], times[m]).params);
        assert(!text_before(times[n], times[m]));
        if n < m {
            assert(records[n].id != records[m].id);
        } else {
            assert(records[m].id != records[n].id);
        }
    }
    assert forall|i: int, n: int|
        0 <= i < read.len() && is_first(records, n) && records[n].user_id == user_id && (forall|
            j: int,
        |
            0 <= j < read.len() ==> (#[trigger] read[j])->Ok_0.id
                != records[n].id) implies !(#[trigger] read[i])->Ok_0.received_at.before(
        (#[trigger] logged(records, times, time_of, n)).received_at,
    ) by {
        let k = list.index_of(n);
        assert(list.contains(n));
        if picks.contains(k) {
            let j = picks.index_of(k);
            assert(read[j]->Ok_0@ == logged(records, times, time_of, n));
            assert(read[j]->Ok_0.id != records[n].id);
        }
        let m = list[picks[i]];
        assert(read[i]->Ok_0@ == logged(records, times, time_of, m));
        assert(table[k] == webhook_insert_of(records[n], times[n]).params);
        assert(table[picks[i]] == webhook_insert_of(records[m], times[m]).params);
        assert(!older(table, 1, picks[i], k));
        assert(!text_before(times[m], times[n]));
    }
}

/// A received webhook is inserted with all that is known of it, and an
/// identifier that is there already is left alone.
pub proof fn law_webhooks_are_inserted(record: WebhookEventRecord, at: &str, r: Statement)
    requires
        call_ensures(insert_webhook_event, (&record, at), r),
    ensures
        r.sql@
            == "INSERT INTO webhook_events (id, received_at, channel, hmac_valid, payload_hash, user_id) VALUES (?1, ?2, ?3, ?4, ?5, ?6) ON CONFLICT (id) DO NOTHING"@,
        r.params@.len() == 6,
        r.params@[0]@ == SqlView::Text(id_form(record.id)),
        r.params@[1]@ == SqlView::Text(at@),
        r.params@[2]@ == SqlView::Text(record.channel@),
        record.hmac_valid == Some(true) ==> r.params@[3]@ == SqlView::Integer(1),
        record.hmac_valid == Some(false) ==> r.params@[3]@ == SqlView::Integer(0),
        record.hmac_valid is None ==> r.params@[3]@ is Null,
        r.params@[4]@ == SqlView::Text(record.payload_hash@),
        r.params@[5]@ == SqlView::Text(record.user_id@),
{
    let p = sql_views(r.params@);
    assert(r@.params == p);
    assert(p.len() == r.params@.len());
    assert(p[0] == r.params@[0]@ && p[1] == r.params@[1]@ && p[2] == r.params@[2]@ && p[3]
        == r.params@[3]@ && p[4] == r.params@[4]@ && p[5] == r.params@[5]@);
}

/// A user's webhooks are asked for, newest first and up to the limit.
pub proof fn law_webhooks_are_asked_for(user_id: &str, limit: i64, r: Statement)
    requires
        call_ensures(list_webhook_events, (user_id, limit), r),
    ensures
        r.sql@
            == "SELECT id, received_at, channel, hmac_valid, payload_hash, user_id FROM webhook_events WHERE user_id = ?1 ORDER BY received_at DESC LIMIT ?2"@,
        r.params@.len() == 2,
        r.params@[0]@ == SqlView::Text(user_id@),
        r.params@[1]@ == SqlView::Integer(limit as int),
{
    let p = sql_views(r.params@);
    assert(r@.params == p);
    assert(p.len() == r.params@.len());
    assert(p[0] == r.params@[0]@ && p[1] == r.params@[1]@);
}

/// A row with an identifier is read as it is; one without is an error that says
/// why.
pub proof fn law_webhook_rows_are_read(
    row: WebhookRow,
    id: u128,
    r: Result<WebhookEventRecord, DatabaseError>,
)
    requires
        call_ensures(read_webhook_row, (row,), r),
    ensures
        r is Ok <==> parsed_id(row.id@) is Ok,
        r matches Ok(x) ==> {
            &&& parsed_id(row.id@) == Ok::<u128, Seq<char>>(x.id)
            &&& x.received_at == row.received_at && x.hmac_valid == row.hmac_valid
            &&& x.channel@ == row.channel@ && x.payload_hash@ == row.payload_hash@
            &&& x.user_id@ == row.user_id@
        },
        row.id@ == id_form(id) ==> (r matches Ok(x) && x.id == id),
        r matches Err(DatabaseError::Query(text)) ==> parsed_id(row.id@) == Err::<u128, Seq<char>>(
            text@,
        ),
{
    let w = webhook_of_row(row, id);
    assert(row.id@ == id_form(id) ==> webhook_row_holds(row, w));
    if let Ok(x) = r {
        assert(x@.id == x.id && x@.received_at == x.received_at);
    }
}

} // verus!
