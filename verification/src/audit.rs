//! The audit logger: best-effort recording of one request's payload and
//! execution window, inside the same critical section as its execution.
//!
//! The worker that owns the store connection calls `record_audit` when
//! the dispatcher issues `Action::RecordAudit` — which it does exactly
//! once per accepted request when auditing is enabled, and never
//! otherwise (see `dispatch::lemma_audit_exactly_once`). What is handed
//! to the engine is pinned by contracts: `audit_insert_sql` is the one
//! insert statement, and `audit_params` is exactly the payload and the
//! two window timestamps, in that order. Insertion failure is reported
//! to the caller for logging but never affects the response.

use vstd::prelude::*;

verus! {

#[verifier::external_type_specification]
#[verifier::external_body]
pub struct ExConnection(rusqlite::Connection);

#[verifier::external_type_specification]
#[verifier::external_body]
pub struct ExError(rusqlite::Error);

/// The one statement that writes an audit record: payload first, then
/// the start and end of the execution window.
pub fn audit_insert_sql() -> (s: &'static str)
    ensures
        s@ == "INSERT INTO __metadata_query (payload, started_at, finished_at) VALUES (?, ?, ?)"@,
{
    "INSERT INTO __metadata_query (payload, started_at, finished_at) VALUES (?, ?, ?)"
}

/// The parameters of one audit record: exactly the request's serialized
/// payload and the two window timestamps, in binding order.
pub fn audit_params(payload: &str, started_at: &str, finished_at: &str) -> (r: Vec<String>)
    ensures
        r@.len() == 3,
        r@[0]@ == payload@,
        r@[1]@ == started_at@,
        r@[2]@ == finished_at@,
{
    let mut params: Vec<String> = Vec::new();
    params.push(payload.to_owned());
    params.push(started_at.to_owned());
    params.push(finished_at.to_owned());
    params
}

/// Relies on rusqlite::Connection::execute: compiles and runs the one
/// statement in `sql` with the strings of `params` bound positionally,
/// returning how many rows it changed, or the engine's error. Nothing
/// more is assumed: whether it succeeds depends on the database file.
#[verifier::external_body]
fn execute_with_text_params(conn: &rusqlite::Connection, sql: &str, params: &Vec<String>) -> (r: Result<usize, rusqlite::Error>)
{
    conn.execute(sql, rusqlite::params_from_iter(params.iter()))
}

/// Insert one audit record: `audit_insert_sql` with `audit_params` of
/// the request's serialized payload and the timestamps around its
/// execution window. Best effort: the result reports whether the
/// insert took, and the caller's response is not affected either way.
pub fn record_audit(conn: &rusqlite::Connection, payload: &str, started_at: &str, finished_at: &str) -> (recorded: bool)
{
    let params = audit_params(payload, started_at, finished_at);
    let r = execute_with_text_params(conn, audit_insert_sql(), &params);
    match r {
        Ok(_) => true,
        Err(_) => false,
    }
}

} // verus!
