//! The audit log.

use vstd::prelude::*;
use crate::bits::{law_readings_are_inverse, signed_bits, to_signed, to_unsigned, unsigned_bits};
use crate::db::sql::{
    error_text, query_error, sql_views, statement_views, text_or_null, DatabaseError, SqlValue,
    SqlView, Statement, StatementView,
};
use crate::db::table::{answers, count_rows, older};
use crate::engine::types::{copy_opt_text, opt_text};
use crate::ids::{id_form, id_text, parse_id, parsed_id};
use crate::json::{json_text, render, Json, JsonValue};
use crate::text::{append_decimal, decimal, text_before};
use crate::time::Timestamp;

verus! {

broadcast use vstd::string::group_string_axioms;

/// One entry of the audit log.
#[derive(Debug)]
pub struct AuditRecord {
    pub event_id: u64,
    pub event_type: String,
    pub source_module: String,
    pub source_component: String,
    pub category: String,
    pub session_id: Option<u128>,
    pub thread_id: Option<u128>,
    pub job_id: Option<u128>,
    pub user_id: Option<String>,
    pub payload: JsonValue,
    pub created_at: Timestamp,
}

/// What an entry holds.
pub ghost struct RecordView {
    pub event_id: u64,
    pub event_type: Seq<char>,
    pub source_module: Seq<char>,
    pub source_component: Seq<char>,
    pub category: Seq<char>,
    pub session_id: Option<u128>,
    pub thread_id: Option<u128>,
    pub job_id: Option<u128>,
    pub user_id: Option<Seq<char>>,
    pub payload: Json,
    pub created_at: Timestamp,
}

impl View for AuditRecord {
    type V = RecordView;

    open spec fn view(&self) -> RecordView {
        RecordView {
            event_id: self.event_id,
            event_type: self.event_type@,
            source_module: self.source_module@,
            source_component: self.source_component@,
            category: self.category@,
            session_id: self.session_id,
            thread_id: self.thread_id,
            job_id: self.job_id,
            user_id: opt_text(self.user_id),
            payload: self.payload@,
            created_at: self.created_at,
        }
    }
}

// ── Writing ─────────────────────────────────────────────────

/// The text form of an optional identifier.
pub open spec fn opt_id_form(id: Option<u128>) -> Option<Seq<char>> {
    match id {
        Some(n) => Some(id_form(n)),
        None => None,
    }
}

fn id_value(id: Option<u128>) -> (r: SqlValue)
    ensures
        r@ == text_or_null(opt_id_form(id)),
{
    match id {
        Some(n) => SqlValue::Text(id_text(n)),
        None => SqlValue::Null,
    }
}

fn text_value(s: &Option<String>) -> (r: SqlValue)
    ensures
        r@ == text_or_null(opt_text(*s)),
{
    match s {
        Some(text) => SqlValue::Text(text.clone()),
        None => SqlValue::Null,
    }
}

/// A statement without values.
pub open spec fn bare_statement(sql: Seq<char>) -> StatementView {
    StatementView { sql, params: seq![] }
}

/// The text of an insertion.
pub open spec fn insert_sql() -> Seq<char> {
    "INSERT INTO audit_log (event_id, event_type, source_module, source_component, category, session_id, thread_id, job_id, user_id, payload, created_at) VALUES (?1, ?2, ?3, ?4, ?5, ?6, ?7, ?8, ?9, ?10, ?11)"@
}

/// The insertion of one record, whose time the store writes as `created_at`.
pub open spec fn insert_of(r: RecordView, created_at: Seq<char>) -> StatementView {
    StatementView {
        sql: insert_sql(),
        params: seq![
            SqlView::Integer(signed_bits(r.event_id) as int),
            SqlView::Text(r.event_type),
            SqlView::Text(r.source_module),
            SqlView::Text(r.source_component),
            SqlView::Text(r.category),
            text_or_null(opt_id_form(r.session_id)),
            text_or_null(opt_id_form(r.thread_id)),
            text_or_null(opt_id_form(r.job_id)),
            text_or_null(r.user_id),
            SqlView::Text(json_text(r.payload)),
            SqlView::Text(created_at),
        ],
    }
}

fn insert_statement(event: &AuditRecord, created_at: &str) -> (r: Statement)
    ensures
        r@ == insert_of(event@, created_at@),
{
    let mut params: Vec<SqlValue> = Vec::new();
    params.push(SqlValue::Integer(to_signed(event.event_id)));
    params.push(SqlValue::Text(event.event_type.clone()));
    params.push(SqlValue::Text(event.source_module.clone()));
    params.push(SqlValue::Text(event.source_component.clone()));
    params.push(SqlValue::Text(event.category.clone()));
    params.push(id_value(event.session_id));
    params.push(id_value(event.thread_id));
    params.push(id_value(event.job_id));
    params.push(text_value(&event.user_id));
    params.push(SqlValue::Text(render(&event.payload)));
    params.push(SqlValue::Text(created_at.to_string()));
    assert(sql_views(params@) =~= insert_of(event@, created_at@).params);
    Statement {
        sql: "INSERT INTO audit_log (event_id, event_type, source_module, source_component, category, session_id, thread_id, job_id, user_id, payload, created_at) VALUES (?1, ?2, ?3, ?4, ?5, ?6, ?7, ?8, ?9, ?10, ?11)".to_string(),
        params,
    }
}

/// The statements that append records to the log: all of them in one
/// transaction, and none where there is nothing to append.
pub open spec fn append_of(events: Seq<AuditRecord>, times: Seq<String>) -> Seq<StatementView> {
    if events.len() == 0 {
        seq![]
    } else {
        seq![bare_statement("BEGIN"@)] + Seq::new(
            events.len(),
            |i: int| insert_of(events[i]@, times[i]@),
        ) + seq![bare_statement("COMMIT"@)]
    }
}

fn bare(sql: &str) -> (r: Statement)
    ensures
        r@ == bare_statement(sql@),
{
    let params: Vec<SqlValue> = Vec::new();
    assert(sql_views(params@) =~= seq![]);
    Statement { sql: sql.to_string(), params }
}

/// The statements that append `events` to the log, in order. `times` holds
/// the times of the events as the store writes them.
pub fn append_audit_events(events: &Vec<AuditRecord>, times: &Vec<String>) -> (r: Vec<Statement>)
    requires
        events.len() == times.len(),
    ensures
        statement_views(r@) == append_of(events@, times@),
{
    let mut out: Vec<Statement> = Vec::new();
    if events.len() == 0 {
        assert(statement_views(out@) =~= seq![]);
        return out;
    }
    out.push(bare("BEGIN"));
    let mut i: usize = 0;
    while i < events.len()
        invariant
            i <= events.len(),
            events.len() == times.len(),
            out.len() == i + 1,
            out@[0]@ == bare_statement("BEGIN"@),
            forall|k: int|
                0 <= k < i ==> (#[trigger] out@[k + 1])@ == insert_of(events@[k]@, times@[k]@),
        decreases events.len() - i,
    {
        let s = insert_statement(&events[i], times[i].as_str());
        out.push(s);
        i += 1;
    }
    out.push(bare("COMMIT"));
    proof {
        let views = statement_views(out@);
        let want = append_of(events@, times@);
        assert forall|k: int| 0 <= k < views.len() implies views[k] == want[k] by {
            if 0 < k <= events.len() {
                assert(out@[(k - 1) + 1]@ == insert_of(events@[k - 1]@, times@[k - 1]@));
            }
        }
        assert(views =~= want);
    }
    out
}

/// What the statement at `at` of an append of `count` statements does.
pub open spec fn append_stage(at: nat, count: nat) -> Seq<char> {
    if at == 0 {
        "audit begin"@
    } else if at + 1 == count {
        "audit commit"@
    } else {
        "audit insert"@
    }
}

/// The error of an append of `count` statements that failed at the one with the
/// position `at`.
pub fn append_error(at: usize, count: usize, cause: &str) -> (r: DatabaseError)
    requires
        at < count,
    ensures
        error_text(r) == append_stage(at as nat, count as nat) + ": "@ + cause@,
{
    if at == 0 {
        query_error("audit begin", cause)
    } else if at + 1 == count {
        query_error("audit commit", cause)
    } else {
        query_error("audit insert", cause)
    }
}

// ── Querying ────────────────────────────────────────────────

/// Which entries of the log are wanted. The two times are written as the
/// store writes them.
#[derive(Debug)]
pub struct AuditFilter {
    pub session_id: Option<u128>,
    pub job_id: Option<u128>,
    pub user_id: Option<String>,
    pub event_type: Option<String>,
    pub after: Option<String>,
    pub before: Option<String>,
    pub limit: Option<i64>,
}

/// One condition: its text up to the number of its placeholder, and its value.
pub open spec fn term_if(text: Seq<char>, value: Option<Seq<char>>) -> Seq<(Seq<char>, SqlView)> {
    match value {
        Some(v) => seq![(text, SqlView::Text(v))],
        None => seq![],
    }
}

/// The conditions of a filter, in order.
pub open spec fn terms_of(f: AuditFilter) -> Seq<(Seq<char>, SqlView)> {
    term_if(" AND session_id = ?"@, opt_id_form(f.session_id)) + term_if(
        " AND job_id = ?"@,
        opt_id_form(f.job_id),
    ) + term_if(" AND user_id = ?"@, opt_text(f.user_id)) + term_if(
        " AND event_type = ?"@,
        opt_text(f.event_type),
    ) + term_if(" AND created_at > ?"@, opt_text(f.after)) + term_if(
        " AND created_at < ?"@,
        opt_text(f.before),
    )
}

/// The conditions one after the other, with placeholders numbered from 1.
pub open spec fn numbered(terms: Seq<(Seq<char>, SqlView)>) -> Seq<char>
    decreases terms.len(),
{
    if terms.len() == 0 {
        seq![]
    } else {
        numbered(terms.drop_last()) + terms.last().0 + decimal(terms.len())
    }
}

/// How many entries a query gives at most.
pub open spec fn limit_of(f: AuditFilter) -> i64 {
    match f.limit {
        Some(n) => n,
        None => 1000,
    }
}

/// The query of a filter: newest entries first.
pub open spec fn query_of(f: AuditFilter) -> StatementView {
    let terms = terms_of(f);
    StatementView {
        sql: "SELECT event_id, event_type, source_module, source_component, category, session_id, thread_id, job_id, user_id, payload, created_at FROM audit_log WHERE 1=1"@
            + numbered(terms) + " ORDER BY created_at DESC"@ + " LIMIT ?"@ + decimal(
            terms.len() + 1,
        ),
        params: terms.map_values(|t: (Seq<char>, SqlView)| t.1).push(
            SqlView::Integer(limit_of(f) as int),
        ),
    }
}

/// The values of conditions.
pub open spec fn term_values(terms: Seq<(Seq<char>, SqlView)>) -> Seq<SqlView> {
    terms.map_values(|t: (Seq<char>, SqlView)| t.1)
}

fn push_term(
    sql: &mut String,
    params: &mut Vec<SqlValue>,
    text: &str,
    value: Option<String>,
    Ghost(base): Ghost<Seq<char>>,
    Ghost(terms): Ghost<Seq<(Seq<char>, SqlView)>>,
)
    requires
        old(sql)@ == base + numbered(terms),
        sql_views(old(params)@) == term_values(terms),
        old(params).len() < 16,
    ensures
        final(sql)@ == base + numbered(terms + term_if(text@, opt_text(value))),
        sql_views(final(params)@) == term_values(terms + term_if(text@, opt_text(value))),
        final(params).len() <= old(params).len() + 1,
{
    let ghost all = terms + term_if(text@, opt_text(value));
    assert(sql_views(params@).len() == terms.len());
    match value {
        Some(v) => {
            sql.append(text);
            append_decimal(sql, (params.len() + 1) as u64);
            let ghost before = params@;
            params.push(SqlValue::Text(v));
            proof {
                assert(sql_views(params@) =~= sql_views(before).push(SqlView::Text(v@)));
                assert(term_values(all) =~= term_values(terms).push(SqlView::Text(v@)));
                assert(all.drop_last() =~= terms);
                assert(sql@ =~= base + numbered(all));
            }
        },
        None => {
            assert(all =~= terms);
        },
    }
}

fn opt_id_text(id: Option<u128>) -> (r: Option<String>)
    ensures
        opt_text(r) == opt_id_form(id),
{
    match id {
        Some(n) => Some(id_text(n)),
        None => None,
    }
}

/// The query that a filter stands for.
pub fn query_audit_log(filter: &AuditFilter) -> (r: Statement)
    ensures
        r@ == query_of(*filter),
{
    let mut sql =
        "SELECT event_id, event_type, source_module, source_component, category, session_id, thread_id, job_id, user_id, payload, created_at FROM audit_log WHERE 1=1".to_string();
    let mut params: Vec<SqlValue> = Vec::new();
    let ghost base = sql@;
    let ghost t0: Seq<(Seq<char>, SqlView)> = seq![];
    assert(sql@ =~= base + numbered(t0));
    assert(sql_views(params@) =~= term_values(t0));
    push_term(
        &mut sql,
        &mut params,
        " AND session_id = ?",
        opt_id_text(filter.session_id),
        Ghost(base),
        Ghost(t0),
    );
    let ghost t1 = t0 + term_if(" AND session_id = ?"@, opt_id_form(filter.session_id));
    push_term(
        &mut sql,
        &mut params,
        " AND job_id = ?",
        opt_id_text(filter.job_id),
        Ghost(base),
        Ghost(t1),
    );
    let ghost t2 = t1 + term_if(" AND job_id = ?"@, opt_id_form(filter.job_id));
    push_term(
        &mut sql,
        &mut params,
        " AND user_id = ?",
        copy_opt_text(&filter.user_id),
        Ghost(base),
        Ghost(t2),
    );
    let ghost t3 = t2 + term_if(" AND user_id = ?"@, opt_text(filter.user_id));
    push_term(
        &mut sql,
        &mut params,
        " AND event_type = ?",
        copy_opt_text(&filter.event_type),
        Ghost(base),
        Ghost(t3),
    );
    let ghost t4 = t3 + term_if(" AND event_type = ?"@, opt_text(filter.event_type));
    push_term(
        &mut sql,
        &mut params,
        " AND created_at > ?",
        copy_opt_text(&filter.after),
        Ghost(base),
        Ghost(t4),
    );
    let ghost t5 = t4 + term_if(" AND created_at > ?"@, opt_text(filter.after));
    push_term(
        &mut sql,
        &mut params,
        " AND created_at < ?",
        copy_opt_text(&filter.before),
        Ghost(base),
        Ghost(t5),
    );
    let ghost t6 = t5 + term_if(" AND created_at < ?"@, opt_text(filter.before));
    proof {
        assert(t1 =~= term_if(" AND session_id = ?"@, opt_id_form(filter.session_id)));
        assert(t6 =~= terms_of(*filter));
        assert(sql_views(params@).len() == t6.len());
    }
    sql.append(" ORDER BY created_at DESC");
    let limit: i64 = match filter.limit {
        Some(n) => n,
        None => 1000,
    };
    sql.append(" LIMIT ?");
    append_decimal(&mut sql, (params.len() + 1) as u64);
    let ghost before = params@;
    params.push(SqlValue::Integer(limit));
    assert(sql_views(params@) =~= sql_views(before).push(SqlView::Integer(limit as int)));
    Statement { sql, params }
}

// ── Reading ─────────────────────────────────────────────────

/// One row of the log, with its payload read as JSON and its time read.
#[derive(Debug)]
pub struct AuditRow {
    pub event_id: i64,
    pub event_type: String,
    pub source_module: String,
    pub source_component: String,
    pub category: String,
    pub session_id: Option<String>,
    pub thread_id: Option<String>,
    pub job_id: Option<String>,
    pub user_id: Option<String>,
    pub payload: JsonValue,
    pub created_at: Timestamp,
}

/// The identifier that a column holds; none where it holds no valid one.
pub open spec fn opt_parsed_id(text: Option<Seq<char>>) -> Option<u128> {
    match text {
        Some(s) => match parsed_id(s) {
            Ok(id) => Some(id),
            Err(_) => None,
        },
        None => None,
    }
}

/// Reads an optional identifier; a text that is none counts as absent.
pub fn parse_opt_uuid(text: &Option<String>) -> (r: Option<u128>)
    ensures
        r == opt_parsed_id(opt_text(*text)),
        forall|id: u128| opt_text(*text) == Some(#[trigger] id_form(id)) ==> r == Some(id),
{
    match text {
        Some(s) => match parse_id(s.as_str()) {
            Ok(id) => Some(id),
            Err(_) => None,
        },
        None => None,
    }
}

/// The record of a row.
pub open spec fn record_of_row(row: AuditRow) -> RecordView {
    RecordView {
        event_id: unsigned_bits(row.event_id),
        event_type: row.event_type@,
        source_module: row.source_module@,
        source_component: row.source_component@,
        category: row.category@,
        session_id: opt_parsed_id(opt_text(row.session_id)),
        thread_id: opt_parsed_id(opt_text(row.thread_id)),
        job_id: opt_parsed_id(opt_text(row.job_id)),
        user_id: opt_text(row.user_id),
        payload: row.payload@,
        created_at: row.created_at,
    }
}

/// The row holds what `insert_of` writes for the record `r`.
pub open spec fn row_holds(row: AuditRow, r: RecordView) -> bool {
    &&& row.event_id == signed_bits(r.event_id)
    &&& row.event_type@ == r.event_type
    &&& row.source_module@ == r.source_module
    &&& row.source_component@ == r.source_component
    &&& row.category@ == r.category
    &&& opt_text(row.session_id) == opt_id_form(r.session_id)
    &&& opt_text(row.thread_id) == opt_id_form(r.thread_id)
    &&& opt_text(row.job_id) == opt_id_form(r.job_id)
    &&& opt_text(row.user_id) == r.user_id
    &&& row.payload@ == r.payload
    &&& row.created_at == r.created_at
}

/// Reads a row. A row that holds what was written for a record gives that
/// record back.
pub fn read_audit_row(row: AuditRow) -> (r: AuditRecord)
    ensures
        r@ == record_of_row(row),
        forall|w: RecordView| #[trigger] row_holds(row, w) ==> r@ == w,
{
    let session_id = parse_opt_uuid(&row.session_id);
    let thread_id = parse_opt_uuid(&row.thread_id);
    let job_id = parse_opt_uuid(&row.job_id);
    let record = AuditRecord {
        event_id: to_unsigned(row.event_id),
        event_type: row.event_type,
        source_module: row.source_module,
        source_component: row.source_component,
        category: row.category,
        session_id,
        thread_id,
        job_id,
        user_id: row.user_id,
        payload: row.payload,
        created_at: row.created_at,
    };
    proof {
        assert forall|w: RecordView| #[trigger] row_holds(row, w) implies record@ == w by {
            law_readings_are_inverse(w.event_id, row.event_id);
            if w.session_id is Some {
                let id = w.session_id->0;
                assert(opt_text(row.session_id) == Some(id_form(id)));
            }
            if w.thread_id is Some {
                let id = w.thread_id->0;
                assert(opt_text(row.thread_id) == Some(id_form(id)));
            }
            if w.job_id is Some {
                let id = w.job_id->0;
                assert(opt_text(row.job_id) == Some(id_form(id)));
            }
        }
    }
    record
}

// ── The log over several appends ────────────────────────────

/// The statement inserts an entry.
pub open spec fn is_insert(s: StatementView) -> bool {
    s.sql == insert_sql()
}

/// The rows of an empty table after these statements, oldest first: each
/// insertion adds its values as a row.
pub open spec fn rows_after(statements: Seq<StatementView>) -> Seq<Seq<SqlView>>
    decreases statements.len(),
{
    if statements.len() == 0 {
        seq![]
    } else {
        let table = rows_after(statements.drop_last());
        if is_insert(statements.last()) {
            table.push(statements.last().params)
        } else {
            table
        }
    }
}

/// The statements of all appends, one after the other.
pub open spec fn all_appends(batches: Seq<(Seq<AuditRecord>, Seq<String>)>) -> Seq<StatementView>
    decreases batches.len(),
{
    if batches.len() == 0 {
        seq![]
    } else {
        all_appends(batches.drop_last()) + append_of(batches.last().0, batches.last().1)
    }
}

/// The entries of all appends in order, each with its time as it is written.
pub open spec fn all_entries(batches: Seq<(Seq<AuditRecord>, Seq<String>)>) -> Seq<
    (RecordView, Seq<char>),
>
    decreases batches.len(),
{
    if batches.len() == 0 {
        seq![]
    } else {
        all_entries(batches.drop_last()) + Seq::new(
            batches.last().0.len(),
            |i: int| (batches.last().0[i]@, batches.last().1[i]@),
        )
    }
}

/// The rows of entries.
pub open spec fn entry_rows(entries: Seq<(RecordView, Seq<char>)>) -> Seq<Seq<SqlView>> {
    entries.map_values(|e: (RecordView, Seq<char>)| insert_of(e.0, e.1).params)
}

/// A row meets a condition of a query.
pub open spec fn meets(row: Seq<SqlView>, term: (Seq<char>, SqlView)) -> bool {
    if term.0 == " AND session_id = ?"@ {
        row[5] == term.1
    } else if term.0 == " AND job_id = ?"@ {
        row[7] == term.1
    } else if term.0 == " AND user_id = ?"@ {
        row[8] == term.1
    } else if term.0 == " AND event_type = ?"@ {
        row[1] == term.1
    } else if term.0 == " AND created_at > ?"@ {
        text_before(term.1->Text_0, row[10]->Text_0)
    } else {
        text_before(row[10]->Text_0, term.1->Text_0)
    }
}

/// A row meets all of the conditions.
pub open spec fn meets_all(row: Seq<SqlView>, terms: Seq<(Seq<char>, SqlView)>) -> bool {
    forall|k: int| 0 <= k < terms.len() ==> meets(row, #[trigger] terms[k])
}

/// The rows that meet the conditions of a filter.
pub open spec fn rows_wanted(f: AuditFilter) -> spec_fn(Seq<SqlView>) -> bool {
    |row: Seq<SqlView>| meets_all(row, terms_of(f))
}

/// The entry is one that the filter asks for.
pub open spec fn matches_filter(f: AuditFilter, entry: (RecordView, Seq<char>)) -> bool {
    let (r, created_at) = entry;
    &&& f.session_id is Some ==> r.session_id == f.session_id
    &&& f.job_id is Some ==> r.job_id == f.job_id
    &&& f.user_id is Some ==> r.user_id == opt_text(f.user_id)
    &&& f.event_type is Some ==> Some(r.event_type) == opt_text(f.event_type)
    &&& opt_text(f.after) matches Some(after) ==> text_before(after, created_at)
    &&& opt_text(f.before) matches Some(before) ==> text_before(created_at, before)
}

/// How many of the entries the filter asks for.
pub open spec fn count_matching(f: AuditFilter, entries: Seq<(RecordView, Seq<char>)>) -> nat
    decreases entries.len(),
{
    if entries.len() == 0 {
        0
    } else {
        count_matching(f, entries.drop_last()) + (if matches_filter(f, entries.last()) {
            1nat
        } else {
            0nat
        })
    }
}

/// What is read from the columns of a row, where `time_of` reads times and
/// `payload_of` reads payloads.
pub open spec fn row_reads(
    row: AuditRow,
    columns: Seq<SqlView>,
    time_of: spec_fn(Seq<char>) -> Timestamp,
    payload_of: spec_fn(Seq<char>) -> Json,
) -> bool {
    &&& columns[0] == SqlView::Integer(row.event_id as int)
    &&& columns[1] == SqlView::Text(row.event_type@)
    &&& columns[2] == SqlView::Text(row.source_module@)
    &&& columns[3] == SqlView::Text(row.source_component@)
    &&& columns[4] == SqlView::Text(row.category@)
    &&& columns[5] == text_or_null(opt_text(row.session_id))
    &&& columns[6] == text_or_null(opt_text(row.thread_id))
    &&& columns[7] == text_or_null(opt_text(row.job_id))
    &&& columns[8] == text_or_null(opt_text(row.user_id))
    &&& columns[9] is Text
    &&& row.payload@ == payload_of(columns[9]->Text_0)
    &&& columns[10] is Text
    &&& row.created_at == time_of(columns[10]->Text_0)
}

/// What the log keeps of an entry: its time as it was written.
pub open spec fn logged(
    entry: (RecordView, Seq<char>),
    time_of: spec_fn(Seq<char>) -> Timestamp,
) -> RecordView {
    RecordView { created_at: time_of(entry.1), ..entry.0 }
}

proof fn lemma_rows_of_more(a: Seq<StatementView>, b: Seq<StatementView>)
    ensures
        rows_after(a + b) == rows_after(a) + rows_after(b),
    decreases b.len(),
{
    if b.len() == 0 {
        assert(a + b =~= a);
        assert(rows_after(a) + rows_after(b) =~= rows_after(a));
    } else {
        assert((a + b).drop_last() =~= a + b.drop_last());
        lemma_rows_of_more(a, b.drop_last());
        assert(rows_after(a + b) =~= rows_after(a) + rows_after(b));
    }
}

proof fn lemma_rows_of_inserts(inserts: Seq<StatementView>)
    requires
        forall|i: int| 0 <= i < inserts.len() ==> is_insert(#[trigger] inserts[i]),
    ensures
        rows_after(inserts) == inserts.map_values(|s: StatementView| s.params),
    decreases inserts.len(),
{
    if inserts.len() > 0 {
        assert(is_insert(inserts[inserts.len() - 1]));
        lemma_rows_of_inserts(inserts.drop_last());
    }
    assert(rows_after(inserts) =~= inserts.map_values(|s: StatementView| s.params));
}

proof fn lemma_rows_of_append(events: Seq<AuditRecord>, times: Seq<String>)
    ensures
        rows_after(append_of(events, times)) == entry_rows(
            Seq::new(events.len(), |i: int| (events[i]@, times[i]@)),
        ),
{
    let entries = Seq::new(events.len(), |i: int| (events[i]@, times[i]@));
    if events.len() == 0 {
        assert(rows_after(append_of(events, times)) =~= entry_rows(entries));
    } else {
        reveal_strlit("BEGIN");
        reveal_strlit("COMMIT");
        reveal_strlit(
            "INSERT INTO audit_log (event_id, event_type, source_module, source_component, category, session_id, thread_id, job_id, user_id, payload, created_at) VALUES (?1, ?2, ?3, ?4, ?5, ?6, ?7, ?8, ?9, ?10, ?11)",
        );
        assert("BEGIN"@[0] != insert_sql()[0] && "COMMIT"@[0] != insert_sql()[0]);
        let first = seq![bare_statement("BEGIN"@)];
        let inserts = Seq::new(events.len(), |i: int| insert_of(events[i]@, times[i]@));
        let last = seq![bare_statement("COMMIT"@)];
        lemma_rows_of_more(first + inserts, last);
        lemma_rows_of_more(first, inserts);
        lemma_rows_of_inserts(inserts);
        assert(first.drop_last() =~= seq![]);
        assert(last.drop_last() =~= seq![]);
        assert(rows_after(first.drop_last()) =~= seq![]);
        assert(rows_after(last.drop_last()) =~= seq![]);
        assert(rows_after(append_of(events, times)) =~= entry_rows(entries));
    }
}

proof fn lemma_rows(batches: Seq<(Seq<AuditRecord>, Seq<String>)>)
    ensures
        rows_after(all_appends(batches)) == entry_rows(all_entries(batches)),
    decreases batches.len(),
{
    if batches.len() == 0 {
        assert(rows_after(all_appends(batches)) =~= entry_rows(all_entries(batches)));
    } else {
        let (events, times) = batches.last();
        lemma_rows(batches.drop_last());
        lemma_rows_of_more(all_appends(batches.drop_last()), append_of(events, times));
        lemma_rows_of_append(events, times);
        assert(rows_after(all_appends(batches)) =~= entry_rows(all_entries(batches)));
    }
}

proof fn lemma_meets_more(
    row: Seq<SqlView>,
    a: Seq<(Seq<char>, SqlView)>,
    b: Seq<(Seq<char>, SqlView)>,
)
    ensures
        meets_all(row, a + b) == (meets_all(row, a) && meets_all(row, b)),
{
    if meets_all(row, a + b) {
        assert forall|k: int| 0 <= k < a.len() implies meets(row, #[trigger] a[k]) by {
            assert((a + b)[k] == a[k]);
        }
        assert forall|k: int| 0 <= k < b.len() implies meets(row, #[trigger] b[k]) by {
            assert((a + b)[a.len() + k] == b[k]);
        }
    }
    if meets_all(row, a) && meets_all(row, b) {
        assert forall|k: int| 0 <= k < (a + b).len() implies meets(row, #[trigger] (a + b)[k]) by {
            if k < a.len() {
                assert((a + b)[k] == a[k]);
            } else {
                assert((a + b)[k] == b[k - a.len()]);
            }
        }
    }
}

proof fn lemma_meets_one(row: Seq<SqlView>, text: Seq<char>, value: Option<Seq<char>>)
    ensures
        meets_all(row, term_if(text, value)) == (value matches Some(v) ==> meets(
            row,
            (text, SqlView::Text(v)),
        )),
{
    if value is Some {
        assert(term_if(text, value)[0] == (text, SqlView::Text(value->0)));
    }
}

proof fn lemma_id_column(kept: Option<u128>, asked: u128)
    ensures
        text_or_null(opt_id_form(kept)) == SqlView::Text(id_form(asked)) <==> kept == Some(asked),
{
    if kept is Some && id_form(kept->0) == id_form(asked) {
        crate::ids::law_id_forms_are_distinct(kept->0, asked);
    }
}

/// The row of an entry is wanted exactly where the filter asks for the entry.
proof fn lemma_wanted(f: AuditFilter, entry: (RecordView, Seq<char>))
    ensures
        meets_all(insert_of(entry.0, entry.1).params, terms_of(f)) == matches_filter(f, entry),
{
    reveal_strlit(" AND session_id = ?");
    reveal_strlit(" AND job_id = ?");
    reveal_strlit(" AND user_id = ?");
    reveal_strlit(" AND event_type = ?");
    reveal_strlit(" AND created_at > ?");
    reveal_strlit(" AND created_at < ?");
    assert(" AND session_id = ?"@[5] == 's' && " AND session_id = ?"@.len() == 19);
    assert(" AND event_type = ?"@[5] == 'e' && " AND event_type = ?"@.len() == 19);
    assert(" AND created_at > ?"@[16] == '>' && " AND created_at > ?"@[5] == 'c');
    assert(" AND created_at < ?"@[16] == '<' && " AND created_at < ?"@[5] == 'c');
    assert(" AND job_id = ?"@.len() == 15);
    assert(" AND user_id = ?"@.len() == 16);
    let row = insert_of(entry.0, entry.1).params;
    let t1 = term_if(" AND session_id = ?"@, opt_id_form(f.session_id));
    let t2 = term_if(" AND job_id = ?"@, opt_id_form(f.job_id));
    let t3 = term_if(" AND user_id = ?"@, opt_text(f.user_id));
    let t4 = term_if(" AND event_type = ?"@, opt_text(f.event_type));
    let t5 = term_if(" AND created_at > ?"@, opt_text(f.after));
    let t6 = term_if(" AND created_at < ?"@, opt_text(f.before));
    lemma_meets_more(row, t1, t2);
    lemma_meets_more(row, t1 + t2, t3);
    lemma_meets_more(row, t1 + t2 + t3, t4);
    lemma_meets_more(row, t1 + t2 + t3 + t4, t5);
    lemma_meets_more(row, t1 + t2 + t3 + t4 + t5, t6);
    lemma_meets_one(row, " AND session_id = ?"@, opt_id_form(f.session_id));
    lemma_meets_one(row, " AND job_id = ?"@, opt_id_form(f.job_id));
    lemma_meets_one(row, " AND user_id = ?"@, opt_text(f.user_id));
    lemma_meets_one(row, " AND event_type = ?"@, opt_text(f.event_type));
    lemma_meets_one(row, " AND created_at > ?"@, opt_text(f.after));
    lemma_meets_one(row, " AND created_at < ?"@, opt_text(f.before));
    if f.session_id is Some {
        lemma_id_column(entry.0.session_id, f.session_id->0);
    }
    if f.job_id is Some {
        lemma_id_column(entry.0.job_id, f.job_id->0);
    }
}

proof fn lemma_count(f: AuditFilter, entries: Seq<(RecordView, Seq<char>)>)
    ensures
        count_rows(entry_rows(entries), rows_wanted(f)) == count_matching(f, entries),
    decreases entries.len(),
{
    if entries.len() > 0 {
        lemma_count(f, entries.drop_last());
        lemma_wanted(f, entries.last());
        assert(entry_rows(entries).drop_last() =~= entry_rows(entries.drop_last()));
    }
}

// ── Laws ────────────────────────────────────────────────────

/// The audit log over any appends, in a database that does what the statements
/// say. From an empty table, `batches` are appended, each with the times of its
/// records as they are written; `picks` are the rows that answer the query of a
/// filter, `rows` what is read from their columns, and `read` the records that
/// come of reading the rows. Written times are read by `time_of`, and sort as
/// texts as they do as times; written payloads are read back by `payload_of`.
///
/// Then what is read are entries that were appended and that the filter asks
/// for, each once and as it was written; they come newest first; there are as
/// many as the filter asks for, up to its limit; and none that is left out is
/// newer than one that is read.
pub proof fn law_audit_log(
    batches: Seq<(Seq<AuditRecord>, Seq<String>)>,
    time_of: spec_fn(Seq<char>) -> Timestamp,
    payload_of: spec_fn(Seq<char>) -> Json,
    f: AuditFilter,
    picks: Seq<int>,
    rows: Seq<AuditRow>,
    read: Seq<AuditRecord>,
)
    requires
        forall|n: int, m: int|
            0 <= n < all_entries(batches).len() && 0 <= m < all_entries(batches).len() && !(
            #[trigger] text_before(all_entries(batches)[n].1, all_entries(batches)[m].1))
                ==> !time_of(all_entries(batches)[n].1).before(time_of(all_entries(batches)[m].1)),
        forall|n: int|
            0 <= n < all_entries(batches).len() ==> payload_of(
                json_text((#[trigger] all_entries(batches)[n]).0.payload),
            ) == all_entries(batches)[n].0.payload,
        0 <= limit_of(f),
        answers(rows_after(all_appends(batches)), rows_wanted(f), 10, limit_of(f) as int, picks),
        rows.len() == picks.len(),
        forall|i: int|
            0 <= i < rows.len() ==> row_reads(
                #[trigger] rows[i],
                rows_after(all_appends(batches))[picks[i]],
                time_of,
                payload_of,
            ),
        read.len() == rows.len(),
        forall|i: int, w: RecordView|
            0 <= i < rows.len() && #[trigger] row_holds(rows[i], w) ==> read[i]@ == w,
    ensures
        picks.len() == read.len(),
        picks.no_duplicates(),
        forall|i: int|
            0 <= i < read.len() ==> 0 <= #[trigger] picks[i] < all_entries(batches).len()
                && matches_filter(f, all_entries(batches)[picks[i]]) && read[i]@ == logged(
                all_entries(batches)[picks[i]],
                time_of,
            ),
        forall|i: int, j: int|
            0 <= i < j < read.len() ==> !(#[trigger] read[i]).created_at.before(
                (#[trigger] read[j]).created_at,
            ),
        read.len() == (if limit_of(f) < count_matching(f, all_entries(batches)) {
            limit_of(f) as int
        } else {
            count_matching(f, all_entries(batches)) as int
        }),
        forall|i: int, n: int|
            0 <= i < read.len() && 0 <= n < all_entries(batches).len() && matches_filter(
                f,
                #[trigger] all_entries(batches)[n],
            ) && !picks.contains(n) ==> !(#[trigger] read[i]).created_at.before(
                logged(all_entries(batches)[n], time_of).created_at,
            ),
{
    let entries = all_entries(batches);
    let table = entry_rows(entries);
    lemma_rows(batches);
    lemma_count(f, entries);
    assert(rows_after(all_appends(batches)) == table);
    assert forall|i: int| 0 <= i < read.len() implies 0 <= #[trigger] picks[i] < entries.len()
        && matches_filter(f, entries[picks[i]]) && read[i]@ == logged(
        entries[picks[i]],
        time_of,
    ) by {
        let e = entries[picks[i]];
        lemma_wanted(f, e);
        assert(table[picks[i]] == insert_of(e.0, e.1).params);
        assert(rows_wanted(f)(table[picks[i]]));
        assert(row_reads(rows[i], table[picks[i]], time_of, payload_of));
        assert(row_holds(rows[i], logged(e, time_of)));
    }
    assert forall|i: int, j: int| 0 <= i < j < read.len() implies !(
    #[trigger] read[i]).created_at.before((#[trigger] read[j]).created_at) by {
        let (a, b) = (entries[picks[i]], entries[picks[j]]);
        assert(read[i]@ == logged(a, time_of));
        assert(read[j]@ == logged(b, time_of));
        assert(!older(table, 10, picks[i], picks[j]));
        assert(table[picks[i]] == insert_of(a.0, a.1).params);
        assert(table[picks[j]] == insert_of(b.0, b.1).params);
        assert(!text_before(entries[picks[i]].1, entries[picks[j]].1));
    }
    assert forall|i: int, n: int|
        0 <= i < read.len() && 0 <= n < entries.len() && matches_filter(f, #[trigger] entries[n])
            && !picks.contains(n) implies !(#[trigger] read[i]).created_at.before(
        logged(entries[n], time_of).created_at,
    ) by {
        let a = entries[picks[i]];
        lemma_wanted(f, entries[n]);
        assert(read[i]@ == logged(a, time_of));
        assert(table[picks[i]] == insert_of(a.0, a.1).params);
        assert(table[n] == insert_of(entries[n].0, entries[n].1).params);
        assert(rows_wanted(f)(table[n]));
        assert(!older(table, 10, picks[i], n));
        assert(!text_before(entries[picks[i]].1, entries[n].1));
    }
}

/// Every placeholder of a query has its value: with `n` conditions the limit
/// is the value number `n + 1`, and there are no others.
pub proof fn law_every_placeholder_has_a_value(f: AuditFilter)
    ensures
        query_of(f).params.len() == terms_of(f).len() + 1,
        query_of(f).params.last() == SqlView::Integer(limit_of(f) as int),
        forall|i: int|
            0 <= i < terms_of(f).len() ==> #[trigger] query_of(f).params[i] == terms_of(f)[i].1,
{
}

/// Appending is all or nothing: the statements of a non-empty append open
/// with `BEGIN` and close with `COMMIT`, with one insertion for each record
/// between them.
pub proof fn law_append_is_one_transaction(events: Seq<AuditRecord>, times: Seq<String>)
    requires
        events.len() > 0,
    ensures
        append_of(events, times).len() == events.len() + 2,
        append_of(events, times)[0] == bare_statement("BEGIN"@),
        append_of(events, times).last() == bare_statement("COMMIT"@),
{
}

/// Nothing is sent for nothing. Otherwise all records are inserted in one
/// transaction, one statement for each in their order.
pub proof fn law_records_are_appended(
    events: Vec<AuditRecord>,
    times: Vec<String>,
    r: Vec<Statement>,
    i: int,
    id: i64,
)
    requires
        events@.len() == times@.len(),
        call_ensures(append_audit_events, (&events, &times), r),
        0 <= i < events@.len() ==> call_ensures(to_signed, (events@[i].event_id,), id),
    ensures
        events@.len() == 0 ==> r@.len() == 0,
        events@.len() > 0 ==> {
            &&& r@.len() == events@.len() + 2
            &&& r@[0].sql@ == "BEGIN"@ && r@[0].params@.len() == 0
            &&& r@.last().sql@ == "COMMIT"@ && r@.last().params@.len() == 0
        },
        0 <= i < events@.len() ==> {
            let s = r@[i + 1];
            let e = events@[i];
            &&& s.sql@
                == "INSERT INTO audit_log (event_id, event_type, source_module, source_component, category, session_id, thread_id, job_id, user_id, payload, created_at) VALUES (?1, ?2, ?3, ?4, ?5, ?6, ?7, ?8, ?9, ?10, ?11)"@
            &&& s.params@.len() == 11
            &&& s.params@[0]@ == SqlView::Integer(id as int)
            &&& s.params@[1]@ == SqlView::Text(e.event_type@)
            &&& s.params@[2]@ == SqlView::Text(e.source_module@)
            &&& s.params@[3]@ == SqlView::Text(e.source_component@)
            &&& s.params@[4]@ == SqlView::Text(e.category@)
            &&& e.session_id matches Some(x) ==> s.params@[5]@ == SqlView::Text(id_form(x))
            &&& e.session_id is None ==> s.params@[5]@ is Null
            &&& e.thread_id matches Some(x) ==> s.params@[6]@ == SqlView::Text(id_form(x))
            &&& e.thread_id is None ==> s.params@[6]@ is Null
            &&& e.job_id matches Some(x) ==> s.params@[7]@ == SqlView::Text(id_form(x))
            &&& e.job_id is None ==> s.params@[7]@ is Null
            &&& e.user_id matches Some(x) ==> s.params@[8]@ == SqlView::Text(x@)
            &&& e.user_id is None ==> s.params@[8]@ is Null
            &&& s.params@[9]@ == SqlView::Text(json_text(e.payload@))
            &&& s.params@[10]@ == SqlView::Text(times@[i]@)
        },
{
    let views = statement_views(r@);
    assert(views.len() == r@.len());
    if events@.len() > 0 {
        assert(views[0] == r@[0]@);
        assert(sql_views(r@[0].params@).len() == r@[0].params@.len());
        assert(views.last() == r@.last()@);
        assert(sql_views(r@.last().params@).len() == r@.last().params@.len());
    }
    if 0 <= i < events@.len() {
        let s = r@[i + 1];
        assert(views[i + 1] == s@);
        assert(views[i + 1] == insert_of(events@[i]@, times@[i]@));
        let p = sql_views(s.params@);
        assert(p.len() == s.params@.len());
        assert(p[0] == s.params@[0]@ && p[1] == s.params@[1]@ && p[2] == s.params@[2]@ && p[3]
            == s.params@[3]@ && p[4] == s.params@[4]@ && p[5] == s.params@[5]@);
        assert(p[6] == s.params@[6]@ && p[7] == s.params@[7]@ && p[8] == s.params@[8]@ && p[9]
            == s.params@[9]@ && p[10] == s.params@[10]@);
        lemma_signed(events@[i].event_id, id);
    }
}

proof fn lemma_signed(n: u64, s: i64)
    requires
        call_ensures(to_signed, (n,), s),
    ensures
        s == signed_bits(n),
{
}

/// A failed append names the part of the transaction that failed: its begin,
/// its end, or an insertion.
pub proof fn law_failed_appends_tell_the_part(at: usize, count: usize, cause: &str, r: DatabaseError)
    requires
        at < count,
        call_ensures(append_error, (at, count, cause), r),
    ensures
        at == 0 ==> error_text(r) == "audit begin"@ + ": "@ + cause@,
        0 < at && at == count - 1 ==> error_text(r) == "audit commit"@ + ": "@ + cause@,
        0 < at < count - 1 ==> error_text(r) == "audit insert"@ + ": "@ + cause@,
{
}

/// A clause with the number of its placeholder, or nothing.
pub open spec fn clause(text: Seq<char>, wanted: bool, number: int) -> Seq<char> {
    if wanted {
        text + decimal(number as nat)
    } else {
        seq![]
    }
}

proof fn lemma_clause(terms: Seq<(Seq<char>, SqlView)>, text: Seq<char>, value: Option<Seq<char>>)
    ensures
        numbered(terms + term_if(text, value)) == numbered(terms) + clause(
            text,
            value is Some,
            (terms + term_if(text, value)).len() as int,
        ),
        adds(terms, terms + term_if(text, value), value),
{
    let all = terms + term_if(text, value);
    match value {
        Some(v) => {
            assert(all.drop_last() =~= terms);
            assert(numbered(all) =~= numbered(terms) + (text + decimal(all.len())));
        },
        None => {
            assert(all =~= terms);
            assert(numbered(terms) + clause(text, false, all.len() as int) =~= numbered(terms));
        },
    }
}

/// One if `wanted`, else none.
pub open spec fn one_if(wanted: bool) -> int {
    if wanted {
        1
    } else {
        0
    }
}

/// The terms `after` are those `before` and one more for the value, if any.
spec fn adds(
    before: Seq<(Seq<char>, SqlView)>,
    after: Seq<(Seq<char>, SqlView)>,
    value: Option<Seq<char>>,
) -> bool {
    &&& after.len() == before.len() + one_if(value is Some)
    &&& value matches Some(v) ==> after[before.len() as int].1 == SqlView::Text(v)
    &&& forall|i: int| 0 <= i < before.len() ==> #[trigger] after[i] == before[i]
}

/// The terms of a filter up to each of its fields.
spec fn steps_of(f: AuditFilter) -> Seq<Seq<(Seq<char>, SqlView)>> {
    let t0: Seq<(Seq<char>, SqlView)> = seq![];
    let t1 = t0 + term_if(" AND session_id = ?"@, opt_id_form(f.session_id));
    let t2 = t1 + term_if(" AND job_id = ?"@, opt_id_form(f.job_id));
    let t3 = t2 + term_if(" AND user_id = ?"@, opt_text(f.user_id));
    let t4 = t3 + term_if(" AND event_type = ?"@, opt_text(f.event_type));
    let t5 = t4 + term_if(" AND created_at > ?"@, opt_text(f.after));
    let t6 = t5 + term_if(" AND created_at < ?"@, opt_text(f.before));
    seq![t0, t1, t2, t3, t4, t5, t6]
}

proof fn lemma_steps(f: AuditFilter)
    ensures
        ({
            let t = steps_of(f);
            &&& t.len() == 7 && t[0].len() == 0 && t[6] == terms_of(f)
            &&& adds(t[0], t[1], opt_id_form(f.session_id))
            &&& adds(t[1], t[2], opt_id_form(f.job_id))
            &&& adds(t[2], t[3], opt_text(f.user_id))
            &&& adds(t[3], t[4], opt_text(f.event_type))
            &&& adds(t[4], t[5], opt_text(f.after))
            &&& adds(t[5], t[6], opt_text(f.before))
            &&& numbered(t[0]) == Seq::<char>::empty()
            &&& numbered(t[1]) == numbered(t[0]) + clause(
                " AND session_id = ?"@,
                f.session_id is Some,
                t[1].len() as int,
            )
            &&& numbered(t[2]) == numbered(t[1]) + clause(
                " AND job_id = ?"@,
                f.job_id is Some,
                t[2].len() as int,
            )
            &&& numbered(t[3]) == numbered(t[2]) + clause(
                " AND user_id = ?"@,
                f.user_id is Some,
                t[3].len() as int,
            )
            &&& numbered(t[4]) == numbered(t[3]) + clause(
                " AND event_type = ?"@,
                f.event_type is Some,
                t[4].len() as int,
            )
            &&& numbered(t[5]) == numbered(t[4]) + clause(
                " AND created_at > ?"@,
                f.after is Some,
                t[5].len() as int,
            )
            &&& numbered(t[6]) == numbered(t[5]) + clause(
                " AND created_at < ?"@,
                f.before is Some,
                t[6].len() as int,
            )
        }),
{
    let t = steps_of(f);
    lemma_clause(t[0], " AND session_id = ?"@, opt_id_form(f.session_id));
    lemma_clause(t[1], " AND job_id = ?"@, opt_id_form(f.job_id));
    lemma_clause(t[2], " AND user_id = ?"@, opt_text(f.user_id));
    lemma_clause(t[3], " AND event_type = ?"@, opt_text(f.event_type));
    lemma_clause(t[4], " AND created_at > ?"@, opt_text(f.after));
    lemma_clause(t[5], " AND created_at < ?"@, opt_text(f.before));
    assert(t[1] =~= term_if(" AND session_id = ?"@, opt_id_form(f.session_id)));
}

proof fn lemma_joined_clauses(
    base: Seq<char>,
    a: Seq<char>,
    b: Seq<char>,
    c: Seq<char>,
    d: Seq<char>,
    e: Seq<char>,
    f: Seq<char>,
)
    ensures
        base + (Seq::<char>::empty() + a + b + c + d + e + f) == base + a + b + c + d + e + f,
{
    assert(base + (Seq::<char>::empty() + a + b + c + d + e + f) =~= base + a + b + c + d + e + f);
}

/// A query asks for exactly the wanted entries, newest first: each field that a
/// filter sets adds its own condition, with the next number.
pub proof fn law_queries_ask_for_what_is_wanted(f: AuditFilter, r: Statement)
    requires
        call_ensures(query_audit_log, (&f,), r),
    ensures
        ({
            let a = one_if(f.session_id is Some);
            let b = a + one_if(f.job_id is Some);
            let c = b + one_if(f.user_id is Some);
            let d = c + one_if(f.event_type is Some);
            let e = d + one_if(f.after is Some);
            let n = e + one_if(f.before is Some);
            r.sql@
                == "SELECT event_id, event_type, source_module, source_component, category, session_id, thread_id, job_id, user_id, payload, created_at FROM audit_log WHERE 1=1"@
                + clause(" AND session_id = ?"@, f.session_id is Some, a) + clause(
                " AND job_id = ?"@,
                f.job_id is Some,
                b,
            ) + clause(" AND user_id = ?"@, f.user_id is Some, c) + clause(
                " AND event_type = ?"@,
                f.event_type is Some,
                d,
            ) + clause(" AND created_at > ?"@, f.after is Some, e) + clause(
                " AND created_at < ?"@,
                f.before is Some,
                n,
            ) + " ORDER BY created_at DESC"@ + " LIMIT ?"@ + decimal((n + 1) as nat)
        }),
{
    lemma_steps(f);
    let t = steps_of(f);
    lemma_joined_clauses(
        "SELECT event_id, event_type, source_module, source_component, category, session_id, thread_id, job_id, user_id, payload, created_at FROM audit_log WHERE 1=1"@,
        clause(" AND session_id = ?"@, f.session_id is Some, t[1].len() as int),
        clause(" AND job_id = ?"@, f.job_id is Some, t[2].len() as int),
        clause(" AND user_id = ?"@, f.user_id is Some, t[3].len() as int),
        clause(" AND event_type = ?"@, f.event_type is Some, t[4].len() as int),
        clause(" AND created_at > ?"@, f.after is Some, t[5].len() as int),
        clause(" AND created_at < ?"@, f.before is Some, t[6].len() as int),
    );
}

proof fn lemma_values(
    t: Seq<Seq<(Seq<char>, SqlView)>>,
    a: Option<Seq<char>>,
    b: Option<Seq<char>>,
    c: Option<Seq<char>>,
    d: Option<Seq<char>>,
    e: Option<Seq<char>>,
    f: Option<Seq<char>>,
)
    requires
        t[0].len() == 0,
        adds(t[0], t[1], a),
        adds(t[1], t[2], b),
        adds(t[2], t[3], c),
        adds(t[3], t[4], d),
        adds(t[4], t[5], e),
        adds(t[5], t[6], f),
    ensures
        a matches Some(v) ==> t[6][0].1 == SqlView::Text(v),
        b matches Some(v) ==> t[6][t[1].len() as int].1 == SqlView::Text(v),
        c matches Some(v) ==> t[6][t[2].len() as int].1 == SqlView::Text(v),
        d matches Some(v) ==> t[6][t[3].len() as int].1 == SqlView::Text(v),
        e matches Some(v) ==> t[6][t[4].len() as int].1 == SqlView::Text(v),
        f matches Some(v) ==> t[6][t[5].len() as int].1 == SqlView::Text(v),
        t[1].len() <= t[2].len() <= t[3].len() <= t[4].len() <= t[5].len() <= t[6].len(),
{
}

/// The values of a query are those of the fields that the filter sets, in the
/// order of their conditions, and then the limit: a thousand where none is set.
pub proof fn law_queries_hold_the_values(f: AuditFilter, r: Statement)
    requires
        call_ensures(query_audit_log, (&f,), r),
    ensures
        ({
            let a = one_if(f.session_id is Some);
            let b = a + one_if(f.job_id is Some);
            let c = b + one_if(f.user_id is Some);
            let d = c + one_if(f.event_type is Some);
            let e = d + one_if(f.after is Some);
            let n = e + one_if(f.before is Some);
            &&& r.params@.len() == n + 1
            &&& f.session_id matches Some(x) ==> r.params@[0]@ == SqlView::Text(id_form(x))
            &&& f.job_id matches Some(x) ==> r.params@[a]@ == SqlView::Text(id_form(x))
            &&& f.user_id matches Some(x) ==> r.params@[b]@ == SqlView::Text(x@)
            &&& f.event_type matches Some(x) ==> r.params@[c]@ == SqlView::Text(x@)
            &&& f.after matches Some(x) ==> r.params@[d]@ == SqlView::Text(x@)
            &&& f.before matches Some(x) ==> r.params@[e]@ == SqlView::Text(x@)
            &&& f.limit matches Some(x) ==> r.params@[n]@ == SqlView::Integer(x as int)
            &&& f.limit is None ==> r.params@[n]@ == SqlView::Integer(1000)
        }),
{
    lemma_steps(f);
    let t = steps_of(f);
    lemma_values(
        t,
        opt_id_form(f.session_id),
        opt_id_form(f.job_id),
        opt_text(f.user_id),
        opt_text(f.event_type),
        opt_text(f.after),
        opt_text(f.before),
    );
    let all = sql_views(r.params@);
    assert(all.len() == r.params@.len());
    assert(all == term_values(t[6]).push(SqlView::Integer(limit_of(f) as int)));
    assert forall|k: int| 0 <= k < t[6].len() implies r.params@[k]@ == #[trigger] t[6][k].1 by {
        assert(all[k] == r.params@[k]@);
        assert(term_values(t[6])[k] == t[6][k].1);
    }
    let n = t[6].len() as int;
    assert(all[n] == r.params@[n]@);
}

/// A row is read as it is, with its number without sign; an identifier is read
/// where the column holds one, and an empty column holds none.
pub proof fn law_rows_are_read(
    row: AuditRow,
    r: AuditRecord,
    id: u128,
    session: Option<u128>,
    thread: Option<u128>,
    job: Option<u128>,
)
    requires
        call_ensures(read_audit_row, (row,), r),
        call_ensures(parse_opt_uuid, (&row.session_id,), session),
        call_ensures(parse_opt_uuid, (&row.thread_id,), thread),
        call_ensures(parse_opt_uuid, (&row.job_id,), job),
    ensures
        row.event_id >= 0 ==> r.event_id == row.event_id,
        row.event_id < 0 ==> r.event_id == row.event_id + 0x1_0000_0000_0000_0000,
        r.event_type@ == row.event_type@ && r.category@ == row.category@,
        r.source_module@ == row.source_module@ && r.source_component@ == row.source_component@,
        r.session_id == session && r.thread_id == thread && r.job_id == job,
        row.session_id is None ==> session is None,
        row.thread_id is None ==> thread is None,
        row.job_id is None ==> job is None,
        (row.session_id matches Some(text) && text@ == id_form(id)) ==> session == Some(id),
        (row.thread_id matches Some(text) && text@ == id_form(id)) ==> thread == Some(id),
        (row.job_id matches Some(text) && text@ == id_form(id)) ==> job == Some(id),
        opt_text(r.user_id) == opt_text(row.user_id),
        r.payload@ == row.payload@ && r.created_at == row.created_at,
{
    let v = r@;
    assert(v == record_of_row(row));
    assert(v.event_id == r.event_id && v.session_id == r.session_id);
    assert(opt_text(row.session_id) == Some(id_form(id)) ==> session == Some(id));
    assert(opt_text(row.thread_id) == Some(id_form(id)) ==> thread == Some(id));
    assert(opt_text(row.job_id) == Some(id_form(id)) ==> job == Some(id));
}

} // verus!
