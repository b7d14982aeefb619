use ironclaw::db::audit::{
    append_audit_events, append_error, parse_opt_uuid, query_audit_log, read_audit_row,
    AuditFilter, AuditRecord, AuditRow,
};
use ironclaw::db::sql::{query_error, DatabaseError, SqlValue, Statement};
use ironclaw::db::webhook_audit::{
    insert_webhook_event, list_webhook_events, read_webhook_row, WebhookEventRecord, WebhookRow,
};
use ironclaw::json::{render, JsonValue};
use ironclaw::time::Timestamp;

const ID: u128 = 0xa1a2a3a4b1b2c1c2d1d2d3d4d5d6d7d8;
const ID_TEXT: &str = "a1a2a3a4-b1b2-c1c2-d1d2-d3d4d5d6d7d8";

fn shown(s: &Statement) -> Vec<String> {
    s.params
        .iter()
        .map(|p| match p {
            SqlValue::Null => "NULL".to_string(),
            SqlValue::Integer(n) => n.to_string(),
            SqlValue::Text(t) => format!("'{t}'"),
        })
        .collect()
}

fn record(event_id: u64) -> AuditRecord {
    AuditRecord {
        event_id,
        event_type: "tool_execution".to_string(),
        source_module: "agent".to_string(),
        source_component: "tools".to_string(),
        category: "Audit".to_string(),
        session_id: Some(ID),
        thread_id: None,
        job_id: Some(1),
        user_id: Some("u".to_string()),
        payload: JsonValue::Array(vec![JsonValue::Bool(true)]),
        created_at: Timestamp { secs: 1, nanos: 0 },
    }
}

fn empty_filter() -> AuditFilter {
    AuditFilter {
        session_id: None,
        job_id: None,
        user_id: None,
        event_type: None,
        after: None,
        before: None,
        limit: None,
    }
}

const SELECT: &str = "SELECT event_id, event_type, source_module, source_component, category, session_id, thread_id, job_id, user_id, payload, created_at FROM audit_log WHERE 1=1";

#[test]
fn query_without_conditions() {
    let q = query_audit_log(&empty_filter());
    assert_eq!(q.sql, format!("{SELECT} ORDER BY created_at DESC LIMIT ?1"));
    assert_eq!(shown(&q), vec!["1000"]);
}

#[test]
fn query_with_every_condition() {
    let q = query_audit_log(&AuditFilter {
        session_id: Some(ID),
        job_id: Some(0),
        user_id: Some("u".to_string()),
        event_type: Some("e".to_string()),
        after: Some("t1".to_string()),
        before: Some("t2".to_string()),
        limit: Some(5),
    });
    assert_eq!(
        q.sql,
        format!("{SELECT} AND session_id = ?1 AND job_id = ?2 AND user_id = ?3 AND event_type = ?4 AND created_at > ?5 AND created_at < ?6 ORDER BY created_at DESC LIMIT ?7")
    );
    assert_eq!(
        shown(&q),
        vec![
            format!("'{ID_TEXT}'"),
            "'00000000-0000-0000-0000-000000000000'".to_string(),
            "'u'".to_string(),
            "'e'".to_string(),
            "'t1'".to_string(),
            "'t2'".to_string(),
            "5".to_string(),
        ]
    );
}

#[test]
fn query_numbers_placeholders_without_gaps() {
    let q = query_audit_log(&AuditFilter {
        user_id: Some("u".to_string()),
        before: Some("t".to_string()),
        ..empty_filter()
    });
    assert_eq!(
        q.sql,
        format!("{SELECT} AND user_id = ?1 AND created_at < ?2 ORDER BY created_at DESC LIMIT ?3")
    );
    assert_eq!(shown(&q), vec!["'u'", "'t'", "1000"]);
}

#[test]
fn append_is_one_transaction() {
    assert!(append_audit_events(&vec![], &vec![]).is_empty());
    let plan = append_audit_events(
        &vec![record(u64::MAX), record(2)],
        &vec!["t1".to_string(), "t2".to_string()],
    );
    assert_eq!(plan.len(), 4);
    assert_eq!(plan[0].sql, "BEGIN");
    assert_eq!(plan[3].sql, "COMMIT");
    assert_eq!(
        shown(&plan[1]),
        vec![
            "-1".to_string(),
            "'tool_execution'".to_string(),
            "'agent'".to_string(),
            "'tools'".to_string(),
            "'Audit'".to_string(),
            format!("'{ID_TEXT}'"),
            "NULL".to_string(),
            "'00000000-0000-0000-0000-000000000001'".to_string(),
            "'u'".to_string(),
            "'[true]'".to_string(),
            "'t1'".to_string(),
        ]
    );
    assert!(plan[2].sql.starts_with("INSERT INTO audit_log"));
}

#[test]
fn rows_give_records_back() {
    let r = read_audit_row(AuditRow {
        event_id: -1,
        event_type: "e".to_string(),
        source_module: "m".to_string(),
        source_component: "c".to_string(),
        category: "Audit".to_string(),
        session_id: Some(ID_TEXT.to_string()),
        thread_id: Some("not an id".to_string()),
        job_id: None,
        user_id: None,
        payload: JsonValue::Null,
        created_at: Timestamp { secs: 3, nanos: 4 },
    });
    assert_eq!(r.event_id, u64::MAX);
    assert_eq!(r.session_id, Some(ID));
    assert_eq!(r.thread_id, None);
    assert_eq!(r.job_id, None);
    assert_eq!(render(&r.payload), "null");
    assert_eq!(parse_opt_uuid(&Some("A1A2A3A4B1B2C1C2D1D2D3D4D5D6D7D8".to_string())), Some(ID));
    assert_eq!(parse_opt_uuid(&None), None);
}

#[test]
fn append_errors_name_their_stage() {
    let text = |at: usize| {
        let DatabaseError::Query(text) = append_error(at, 4, "disk full");
        text
    };
    assert_eq!(text(0), "audit begin: disk full");
    assert_eq!(text(1), "audit insert: disk full");
    assert_eq!(text(2), "audit insert: disk full");
    assert_eq!(text(3), "audit commit: disk full");
}

#[test]
fn errors_name_the_statement() {
    let DatabaseError::Query(text) = query_error("audit begin", "disk full");
    assert_eq!(text, "audit begin: disk full");
}

fn bind(s: &Statement) -> Vec<libsql::Value> {
    s.params
        .iter()
        .map(|p| match p {
            SqlValue::Null => libsql::Value::Null,
            SqlValue::Integer(n) => libsql::Value::Integer(*n),
            SqlValue::Text(t) => libsql::Value::Text(t.clone()),
        })
        .collect()
}

fn text(row: &libsql::Row, i: i32) -> String {
    row.get::<String>(i).expect("a text column")
}

fn webhook(id: u128, hash: &str, hmac_valid: Option<bool>) -> WebhookEventRecord {
    WebhookEventRecord {
        id,
        received_at: Timestamp { secs: 1_700_000_000 + (id % 100) as i64, nanos: 0 },
        channel: "webhook".to_string(),
        hmac_valid,
        payload_hash: hash.to_string(),
        user_id: "user1".to_string(),
    }
}

async fn store_and_list(records: Vec<WebhookEventRecord>, limit: i64) -> Vec<WebhookEventRecord> {
    let db = libsql::Builder::new_local(":memory:").build().await.expect("a database");
    let conn = db.connect().expect("a connection");
    conn.execute(
        "CREATE TABLE webhook_events (id TEXT PRIMARY KEY, received_at TEXT, channel TEXT, hmac_valid INTEGER, payload_hash TEXT, user_id TEXT)",
        (),
    )
    .await
    .expect("a table");
    for r in &records {
        let at = format!("{:012}", r.received_at.secs);
        let s = insert_webhook_event(r, &at);
        conn.execute(&s.sql, bind(&s)).await.expect("an insertion");
        conn.execute(&s.sql, bind(&s)).await.expect("a repeated insertion");
    }
    let q = list_webhook_events("user1", limit);
    let mut rows = conn.query(&q.sql, bind(&q)).await.expect("a query");
    let mut out = Vec::new();
    while let Some(row) = rows.next().await.expect("a row") {
        let secs: i64 = text(&row, 1).parse().expect("seconds");
        let read = read_webhook_row(WebhookRow {
            id: text(&row, 0),
            received_at: Timestamp { secs, nanos: 0 },
            channel: text(&row, 2),
            hmac_valid: row.get::<Option<i64>>(3).expect("a flag").map(|n| n != 0),
            payload_hash: text(&row, 4),
            user_id: text(&row, 5),
        });
        out.push(read.expect("a record"));
    }
    out
}

fn block_on<F: std::future::Future>(f: F) -> F::Output {
    tokio::runtime::Builder::new_current_thread().build().expect("a runtime").block_on(f)
}

#[test]
fn webhook_event_round_trip() {
    let events = block_on(store_and_list(vec![webhook(ID, "abc123", Some(true))], 10));
    assert_eq!(events.len(), 1);
    assert_eq!(events[0].id, ID);
    assert_eq!(events[0].channel, "webhook");
    assert_eq!(events[0].hmac_valid, Some(true));
    assert_eq!(events[0].payload_hash, "abc123");
    assert_eq!(events[0].user_id, "user1");
}

#[test]
fn list_returns_newest_first() {
    let events = block_on(store_and_list(
        vec![
            webhook(1, "hash0", None),
            webhook(3, "hash2", Some(false)),
            webhook(2, "hash1", None),
        ],
        10,
    ));
    assert_eq!(events.len(), 3);
    let hashes: Vec<&str> = events.iter().map(|e| e.payload_hash.as_str()).collect();
    assert_eq!(hashes, vec!["hash2", "hash1", "hash0"]);
    assert!(events[1].received_at.is_before(events[0].received_at));
    assert_eq!(events[0].hmac_valid, Some(false));
    assert_eq!(events[1].hmac_valid, None);
}

#[test]
fn webhook_log_keeps_the_first_under_an_id() {
    let records = || {
        let mut other_user = webhook(9, "theirs", None);
        other_user.user_id = "user2".to_string();
        let mut taken = webhook(9, "mine", None);
        taken.received_at = Timestamp { secs: 1_800_000_000, nanos: 0 };
        vec![
            webhook(2, "first", Some(true)),
            other_user,
            webhook(5, "newest", None),
            webhook(2, "second", Some(false)),
            taken,
            webhook(1, "oldest", None),
        ]
    };
    let hashes = |limit: i64| -> Vec<String> {
        let events = block_on(store_and_list(records(), limit));
        events.into_iter().map(|e| e.payload_hash).collect()
    };
    assert_eq!(hashes(10), ["newest", "first", "oldest"]);
    assert_eq!(hashes(2), ["newest", "first"]);
    assert!(hashes(0).is_empty());
    let events = block_on(store_and_list(records(), 10));
    assert_eq!(events[1].hmac_valid, Some(true));
}

#[test]
fn unreadable_webhook_id_is_an_error() {
    let r = read_webhook_row(WebhookRow {
        id: "nope".to_string(),
        received_at: Timestamp { secs: 0, nanos: 0 },
        channel: String::new(),
        hmac_valid: None,
        payload_hash: String::new(),
        user_id: String::new(),
    });
    match r {
        Err(DatabaseError::Query(message)) => {
            assert_eq!(message, uuid::Uuid::parse_str("nope").expect_err("no id").to_string())
        }
        Ok(_) => panic!("expected an error"),
    }
}

#[test]
fn audit_log_runs_on_a_database() {
    let found = block_on(async {
        let db = libsql::Builder::new_local(":memory:").build().await.expect("a database");
        let conn = db.connect().expect("a connection");
        conn.execute(
            "CREATE TABLE audit_log (event_id INTEGER, event_type TEXT, source_module TEXT, source_component TEXT, category TEXT, session_id TEXT, thread_id TEXT, job_id TEXT, user_id TEXT, payload TEXT, created_at TEXT)",
            (),
        )
        .await
        .expect("a table");
        let plan = append_audit_events(
            &vec![record(1), record(2), record(3)],
            &vec!["2024".to_string(), "2026".to_string(), "2025".to_string()],
        );
        for s in &plan {
            conn.execute(&s.sql, bind(s)).await.expect("a statement");
        }
        let q = query_audit_log(&AuditFilter {
            session_id: Some(ID),
            after: Some("2024".to_string()),
            ..empty_filter()
        });
        let mut rows = conn.query(&q.sql, bind(&q)).await.expect("a query");
        let mut ids = Vec::new();
        while let Some(row) = rows.next().await.expect("a row") {
            ids.push(row.get::<i64>(0).expect("an id"));
        }
        ids
    });
    assert_eq!(found, vec![2, 3]);
}

#[test]
fn audit_log_gives_back_what_was_appended() {
    let entry = |event_id: u64, user: Option<&str>, kind: &str, job: Option<u128>| AuditRecord {
        event_type: kind.to_string(),
        user_id: user.map(str::to_string),
        job_id: job,
        ..record(event_id)
    };
    let first = vec![
        entry(1, Some("u"), "auth_event", Some(7)),
        entry(2, Some("v"), "auth_event", None),
        entry(u64::MAX, None, "config_change", Some(7)),
    ];
    let second = vec![entry(4, Some("u"), "config_change", Some(8))];
    let time = |s: &str| s.to_string();
    let plans = [
        append_audit_events(&first, &vec![time("2024"), time("2027"), time("2025")]),
        append_audit_events(&vec![], &vec![]),
        append_audit_events(&second, &vec![time("2026")]),
    ];
    let found = |filter: AuditFilter| -> Vec<AuditRecord> {
        block_on(async {
            let db = libsql::Builder::new_local(":memory:").build().await.expect("a database");
            let conn = db.connect().expect("a connection");
            conn.execute(
                "CREATE TABLE audit_log (event_id INTEGER, event_type TEXT, source_module TEXT, source_component TEXT, category TEXT, session_id TEXT, thread_id TEXT, job_id TEXT, user_id TEXT, payload TEXT, created_at TEXT)",
                (),
            )
            .await
            .expect("a table");
            for s in plans.iter().flatten() {
                conn.execute(&s.sql, bind(s)).await.expect("a statement");
            }
            let q = query_audit_log(&filter);
            let mut rows = conn.query(&q.sql, bind(&q)).await.expect("a query");
            let mut out = Vec::new();
            while let Some(row) = rows.next().await.expect("a row") {
                let opt = |i: i32| row.get::<Option<String>>(i).expect("an optional text");
                assert_eq!(text(&row, 9), "[true]");
                out.push(read_audit_row(AuditRow {
                    event_id: row.get::<i64>(0).expect("an id"),
                    event_type: text(&row, 1),
                    source_module: text(&row, 2),
                    source_component: text(&row, 3),
                    category: text(&row, 4),
                    session_id: opt(5),
                    thread_id: opt(6),
                    job_id: opt(7),
                    user_id: opt(8),
                    payload: JsonValue::Array(vec![JsonValue::Bool(true)]),
                    created_at: Timestamp {
                        secs: text(&row, 10).parse().expect("a year"),
                        nanos: 0,
                    },
                }));
            }
            out
        })
    };
    let ids = |filter: AuditFilter| -> Vec<u64> {
        found(filter).iter().map(|r| r.event_id).collect()
    };
    assert_eq!(ids(empty_filter()), [2, 4, u64::MAX, 1]);
    assert_eq!(ids(AuditFilter { limit: Some(2), ..empty_filter() }), [2, 4]);
    assert_eq!(ids(AuditFilter { user_id: Some(time("u")), ..empty_filter() }), [4, 1]);
    assert_eq!(ids(AuditFilter { job_id: Some(7), ..empty_filter() }), [u64::MAX, 1]);
    assert_eq!(
        ids(AuditFilter { event_type: Some(time("config_change")), ..empty_filter() }),
        [4, u64::MAX]
    );
    let between =
        AuditFilter { after: Some(time("2024")), before: Some(time("2027")), ..empty_filter() };
    assert_eq!(ids(between), [4, u64::MAX]);
    let newest = &found(empty_filter())[0];
    assert_eq!(newest.user_id.as_deref(), Some("v"));
    assert_eq!(newest.job_id, None);
    assert_eq!(newest.session_id, Some(ID));
    assert_eq!(newest.created_at.secs, 2027);
}
