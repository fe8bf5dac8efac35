//! Stored results: how they are written to the database and read back, and which of them a query
//! asks for.

use crate::error::Error;
use crate::number::{all_digits, digits_value, is_digit, lemma_decimal_reads_back};
use crate::reading::Reading;
use crate::result::{optional_text, Measured, ResultView, TestResult};
use crate::text::{
    decimal, decimal_text, lemma_made_of_five, made_of, text_before, texts_of,
};
use crate::time::{
    parse_instant, parse_time, rfc3339_instant, rfc3339_text, write_rfc3339, TimeError, Timestamp,
};
use vstd::prelude::*;

verus! {

/// Creates the table of results, unless it is there.
pub const SCHEMA_SQL: &'static str = "
        CREATE TABLE IF NOT EXISTS test_runs (
            id INTEGER PRIMARY KEY AUTOINCREMENT,
            started_at TEXT NOT NULL,
            duration_seconds INTEGER NOT NULL,
            server_id TEXT NOT NULL,
            server_name TEXT NOT NULL,
            server_download_url TEXT NOT NULL,
            server_upload_url TEXT NOT NULL,
            server_latency_url TEXT NOT NULL,
            latency_ms REAL NOT NULL,
            jitter_ms REAL NOT NULL,
            download_mbps REAL NOT NULL,
            upload_mbps REAL NOT NULL,
            download_bytes INTEGER NOT NULL,
            upload_bytes INTEGER NOT NULL,
            error TEXT NULL,
            app_version TEXT NOT NULL
        );
        CREATE INDEX IF NOT EXISTS idx_test_runs_started_at ON test_runs(started_at);
    ";

/// Adds a result to the table.
pub const INSERT_SQL: &'static str = "INSERT INTO test_runs (
            started_at, duration_seconds, server_id, server_name, server_download_url, server_upload_url, server_latency_url,
            latency_ms, jitter_ms, download_mbps, upload_mbps, download_bytes, upload_bytes, error, app_version
        ) VALUES (?1, ?2, ?3, ?4, ?5, ?6, ?7, ?8, ?9, ?10, ?11, ?12, ?13, ?14, ?15)";

/// A result as the database holds it, but for its number: times are texts, and counts are signed.
#[derive(Debug, PartialEq, Eq)]
pub struct StoredRow {
    pub started_at: String,
    pub duration_seconds: i64,
    pub server_id: String,
    pub server_name: String,
    pub server_download_url: String,
    pub server_upload_url: String,
    pub server_latency_url: String,
    pub latency_ms: Reading,
    pub jitter_ms: Reading,
    pub download_mbps: Reading,
    pub upload_mbps: Reading,
    pub download_bytes: i64,
    pub upload_bytes: i64,
    pub error: Option<String>,
    pub app_version: String,
}

/// What a [`StoredRow`] holds.
#[verifier::ext_equal]
pub struct RowView {
    pub started_at: Seq<char>,
    pub duration_seconds: i64,
    pub server_id: Seq<char>,
    pub server_name: Seq<char>,
    pub server_download_url: Seq<char>,
    pub server_upload_url: Seq<char>,
    pub server_latency_url: Seq<char>,
    pub latency_ms: Reading,
    pub jitter_ms: Reading,
    pub download_mbps: Reading,
    pub upload_mbps: Reading,
    pub download_bytes: i64,
    pub upload_bytes: i64,
    pub error: Option<Seq<char>>,
    pub app_version: Seq<char>,
}

impl View for StoredRow {
    type V = RowView;

    open spec fn view(&self) -> RowView {
        RowView {
            started_at: self.started_at@,
            duration_seconds: self.duration_seconds,
            server_id: self.server_id@,
            server_name: self.server_name@,
            server_download_url: self.server_download_url@,
            server_upload_url: self.server_upload_url@,
            server_latency_url: self.server_latency_url@,
            latency_ms: self.latency_ms,
            jitter_ms: self.jitter_ms,
            download_mbps: self.download_mbps,
            upload_mbps: self.upload_mbps,
            download_bytes: self.download_bytes,
            upload_bytes: self.upload_bytes,
            error: optional_text(self.error),
            app_version: self.app_version@,
        }
    }
}

/// The row of a result, given how its time is written. Counts of more than an `i64` can hold
/// wrap around.
pub open spec fn row_of(result: ResultView, started_at: Seq<char>) -> RowView {
    RowView {
        started_at,
        duration_seconds: result.duration_seconds as i64,
        server_id: result.server_id,
        server_name: result.server_name,
        server_download_url: result.server_download_url,
        server_upload_url: result.server_upload_url,
        server_latency_url: result.server_latency_url,
        latency_ms: result.measured.latency_ms,
        jitter_ms: result.measured.jitter_ms,
        download_mbps: result.measured.download_mbps,
        upload_mbps: result.measured.upload_mbps,
        download_bytes: result.measured.download_bytes as i64,
        upload_bytes: result.measured.upload_bytes as i64,
        error: result.error,
        app_version: result.app_version,
    }
}

/// The result of a row, given its number and the instant that its time denotes.
pub open spec fn result_of(id: i64, row: RowView, started_at: Timestamp) -> ResultView {
    ResultView {
        id: Some(id),
        started_at,
        duration_seconds: row.duration_seconds as u64,
        server_id: row.server_id,
        server_name: row.server_name,
        server_download_url: row.server_download_url,
        server_upload_url: row.server_upload_url,
        server_latency_url: row.server_latency_url,
        measured: Measured {
            latency_ms: row.latency_ms,
            jitter_ms: row.jitter_ms,
            download_mbps: row.download_mbps,
            upload_mbps: row.upload_mbps,
            download_bytes: row.download_bytes as u64,
            upload_bytes: row.upload_bytes as u64,
        },
        error: row.error,
        app_version: row.app_version,
    }
}

/// The row of a result, given how its time is written.
pub fn make_row(result: &TestResult, started_at: String) -> (r: StoredRow)
    ensures
        r@ == row_of(result@, started_at@),
{
    StoredRow {
        started_at,
        duration_seconds: #[verifier::truncate] (result.duration_seconds as i64),
        server_id: result.server_id.clone(),
        server_name: result.server_name.clone(),
        server_download_url: result.server_download_url.clone(),
        server_upload_url: result.server_upload_url.clone(),
        server_latency_url: result.server_latency_url.clone(),
        latency_ms: result.measured.latency_ms,
        jitter_ms: result.measured.jitter_ms,
        download_mbps: result.measured.download_mbps,
        upload_mbps: result.measured.upload_mbps,
        download_bytes: #[verifier::truncate] (result.measured.download_bytes as i64),
        upload_bytes: #[verifier::truncate] (result.measured.upload_bytes as i64),
        error: match &result.error {
            Some(text) => Some(text.clone()),
            None => None,
        },
        app_version: result.app_version.clone(),
    }
}

/// What reading a row gives: its result, unless its time cannot be read.
pub open spec fn stored_result(id: i64, row: RowView) -> Result<ResultView, TimeError> {
    match rfc3339_instant(row.started_at) {
        Ok(t) => Ok(result_of(id, row, t)),
        Err(e) => Err(e),
    }
}

/// Counts, measured values and texts survive being stored, whatever they are: only the time goes
/// through its written form.
pub proof fn law_row_keeps_result(id: i64, result: ResultView, started_at: Seq<char>)
    ensures
        result_of(id, row_of(result, started_at), result.started_at) == (ResultView {
            id: Some(id),
            ..result
        }),
{
    let d = result.duration_seconds;
    let down = result.measured.download_bytes;
    let up = result.measured.upload_bytes;
    assert((d as i64) as u64 == d) by (bit_vector);
    assert((down as i64) as u64 == down) by (bit_vector);
    assert((up as i64) as u64 == up) by (bit_vector);
}

/// The row under which a result is stored. If the year of its time has four digits, reading the
/// row gives back what was stored, under whatever number it has, and its text of the time sorts
/// among others as the time does.
pub fn insert_result(result: &TestResult) -> (r: StoredRow)
    requires
        result.started_at.valid(),
    ensures
        r@ == row_of(result@, rfc3339_text(result.started_at)),
        result.started_at.in_four_digit_year() ==> forall|id: i64|
            (#[trigger] stored_result(id, r@)) is Ok && stored_result(id, r@)->Ok_0 == (
            ResultView { id: Some(id), ..result@ }),
        result.started_at.in_four_digit_year() ==> forall|t: Timestamp|
            t.valid() && t.in_four_digit_year() ==> {
                &&& text_before(#[trigger] rfc3339_text(t), r@.started_at) <==> t.earlier(
                    result.started_at,
                )
                &&& text_before(r@.started_at, rfc3339_text(t)) <==> result.started_at.earlier(t)
            },
{
    let row = make_row(result, write_rfc3339(result.started_at));
    proof {
        assert forall|id: i64| result.started_at.in_four_digit_year() implies (
        #[trigger] stored_result(id, row@)) is Ok && stored_result(id, row@)->Ok_0 == (ResultView {
            id: Some(id),
            ..result@
        }) by {
            law_row_keeps_result(id, result@, row@.started_at);
        }
    }
    row
}

/// The result of a row, given its number and the instant that its time denotes.
pub fn make_result(id: i64, row: StoredRow, started_at: Timestamp) -> (r: TestResult)
    ensures
        r@ == result_of(id, row@, started_at),
{
    TestResult {
        id: Some(id),
        started_at,
        duration_seconds: #[verifier::truncate] (row.duration_seconds as u64),
        server_id: row.server_id,
        server_name: row.server_name,
        server_download_url: row.server_download_url,
        server_upload_url: row.server_upload_url,
        server_latency_url: row.server_latency_url,
        measured: Measured {
            latency_ms: row.latency_ms,
            jitter_ms: row.jitter_ms,
            download_mbps: row.download_mbps,
            upload_mbps: row.upload_mbps,
            download_bytes: #[verifier::truncate] (row.download_bytes as u64),
            upload_bytes: #[verifier::truncate] (row.upload_bytes as u64),
        },
        error: row.error,
        app_version: row.app_version,
    }
}

/// The result that is stored in a row, unless its time cannot be read.
pub fn load_row(id: i64, row: StoredRow) -> (r: Result<TestResult, Error>)
    ensures
        match stored_result(id, row@) {
            Ok(stored) => {
                &&& r matches Ok(result)
                &&& result@ == stored
                &&& result.started_at.valid()
            },
            Err(e) => r matches Err(Error::Time(why)) && why == e,
        },
{
    match parse_instant(row.started_at.as_str()) {
        Ok(t) => Ok(make_result(id, row, t)),
        Err(e) => Err(e),
    }
}

/// Selects all stored results.
pub const SELECT_SQL: &'static str = "SELECT id, started_at, duration_seconds, server_id, server_name, server_download_url, server_upload_url, server_latency_url,
        latency_ms, jitter_ms, download_mbps, upload_mbps, download_bytes, upload_bytes, error, app_version
        FROM test_runs WHERE 1=1";

/// How many results are listed unless the user asks otherwise.
pub const DEFAULT_HISTORY_LIMIT: usize = 20;

/// A query, with the values for its placeholders.
#[derive(Debug, PartialEq, Eq)]
pub struct HistoryQuery {
    pub sql: String,
    pub bind: Vec<String>,
}

/// The query for the latest results, the latest first: at most `limit` of them, where the largest
/// `usize` stands for no limit, not before `since` and not after `until`.
pub open spec fn query_sql(limit: usize, since: bool, until: bool) -> Seq<char> {
    SELECT_SQL@ + (if since {
        " AND started_at >= ?"@
    } else {
        Seq::empty()
    }) + (if until {
        " AND started_at <= ?"@
    } else {
        Seq::empty()
    }) + " ORDER BY started_at DESC"@ + (if limit != usize::MAX {
        " LIMIT "@ + decimal(limit as nat)
    } else {
        Seq::empty()
    })
}

/// The values for the placeholders of a query: its bounds.
pub open spec fn query_bind(since: Option<Seq<char>>, until: Option<Seq<char>>) -> Seq<Seq<char>> {
    (match since {
        Some(text) => seq![text],
        None => Seq::empty(),
    }) + (match until {
        Some(text) => seq![text],
        None => Seq::empty(),
    })
}

/// The query for the latest results within bounds that are given as texts.
pub fn select_query(limit: usize, since: Option<String>, until: Option<String>) -> (r: HistoryQuery)
    ensures
        r.sql@ == query_sql(limit, since is Some, until is Some),
        texts_of(r.bind@) == query_bind(optional_text(since), optional_text(until)),
{
    let mut sql = SELECT_SQL.to_owned();
    let mut bind: Vec<String> = Vec::new();
    match since {
        Some(text) => {
            sql.append(" AND started_at >= ?");
            bind.push(text);
        },
        None => {},
    }
    match until {
        Some(text) => {
            sql.append(" AND started_at <= ?");
            bind.push(text);
        },
        None => {},
    }
    sql.append(" ORDER BY started_at DESC");
    if limit != usize::MAX {
        sql.append(" LIMIT ");
        sql.append(decimal_text(limit as u64).as_str());
    }
    assert(sql@ =~= query_sql(limit, since is Some, until is Some));
    assert(texts_of(bind@) =~= query_bind(optional_text(since), optional_text(until)));
    HistoryQuery { sql, bind }
}

/// How a bound is written.
pub open spec fn bound_text(bound: Option<Timestamp>) -> Option<Seq<char>> {
    match bound {
        Some(t) => Some(rfc3339_text(t)),
        None => None,
    }
}

/// Whether a text meets the conditions of a query with these values: it does not sort before the
/// first bound nor behind the second.
pub open spec fn text_within(
    text: Seq<char>,
    since: Option<Seq<char>>,
    until: Option<Seq<char>>,
) -> bool {
    &&& since matches Some(from) ==> !text_before(text, from)
    &&& until matches Some(to) ==> !text_before(to, text)
}

/// Whether an instant lies within bounds.
pub open spec fn instant_within(
    t: Timestamp,
    since: Option<Timestamp>,
    until: Option<Timestamp>,
) -> bool {
    &&& since matches Some(from) ==> !t.earlier(from)
    &&& until matches Some(to) ==> !to.earlier(t)
}

/// Whether a bound lies in a year of four digits, if there is one.
pub open spec fn four_digit_bound(bound: Option<Timestamp>) -> bool {
    bound matches Some(t) ==> t.in_four_digit_year()
}

/// Whether the conditions of a query, which compare texts, hold of exactly the times within its
/// bounds, as long as all of them are in years of four digits.
pub open spec fn selects_by_time(since: Option<Timestamp>, until: Option<Timestamp>) -> bool {
    four_digit_bound(since) && four_digit_bound(until) ==> forall|t: Timestamp|
        t.valid() && t.in_four_digit_year() ==> (text_within(
            #[trigger] rfc3339_text(t),
            bound_text(since),
            bound_text(until),
        ) <==> instant_within(t, since, until))
}

fn write_bound(bound: Option<Timestamp>) -> (r: Option<String>)
    requires
        bound matches Some(t) ==> t.valid(),
    ensures
        optional_text(r) == bound_text(bound),
        selects_by_time(bound, None),
        selects_by_time(None, bound),
{
    match bound {
        Some(t) => Some(write_rfc3339(t)),
        None => None,
    }
}

/// The query for the latest results within bounds. As long as the bounds lie in years of four
/// digits, its conditions hold of exactly those times in such years that are within the bounds.
pub fn query_results(limit: usize, since: Option<Timestamp>, until: Option<Timestamp>) -> (r:
    HistoryQuery)
    requires
        since matches Some(t) ==> t.valid(),
        until matches Some(t) ==> t.valid(),
    ensures
        r.sql@ == query_sql(limit, since is Some, until is Some),
        texts_of(r.bind@) == query_bind(bound_text(since), bound_text(until)),
        selects_by_time(since, until),
{
    let since_text = write_bound(since);
    let until_text = write_bound(until);
    proof {
        assert forall|t: Timestamp|
            four_digit_bound(since) && four_digit_bound(until) && t.valid()
                && t.in_four_digit_year() implies (text_within(
            #[trigger] rfc3339_text(t),
            bound_text(since),
            bound_text(until),
        ) <==> instant_within(t, since, until)) by {
            assert(text_within(rfc3339_text(t), bound_text(since), None) <==> instant_within(
                t,
                since,
                None,
            ));
            assert(text_within(rfc3339_text(t), None, bound_text(until)) <==> instant_within(
                t,
                None,
                until,
            ));
        }
    }
    select_query(limit, since_text, until_text)
}

/// What reading an optional bound gives.
pub open spec fn bound_read(bound: Option<&str>) -> Result<Option<Timestamp>, TimeError> {
    match bound {
        Some(text) => match rfc3339_instant(text@) {
            Ok(t) => Ok(Some(t)),
            Err(e) => Err(e),
        },
        None => Ok(None),
    }
}

/// Whether `r` is what comes of asking for results within bounds as the user gave them. A bound
/// that is no time is an error, and that of `since` comes first.
pub open spec fn request_outcome(
    limit: usize,
    since: Option<&str>,
    until: Option<&str>,
    r: Result<HistoryQuery, Error>,
) -> bool {
    match (bound_read(since), bound_read(until)) {
        (Err(e), _) => r matches Err(Error::Time(why)) && why == e,
        (Ok(_), Err(e)) => r matches Err(Error::Time(why)) && why == e,
        (Ok(from), Ok(to)) => {
            &&& r matches Ok(query)
            &&& query.sql@ == query_sql(limit, since is Some, until is Some)
            &&& texts_of(query.bind@) == query_bind(bound_text(from), bound_text(to))
            &&& selects_by_time(from, to)
        },
    }
}

/// The query for bounds as the user gave them.
pub fn history_request(limit: usize, since: Option<&str>, until: Option<&str>) -> (r: Result<
    HistoryQuery,
    Error,
>)
    ensures
        request_outcome(limit, since, until, r),
{
    let from = match parse_time(since) {
        Ok(bound) => bound,
        Err(e) => {
            return Err(e);
        },
    };
    let to = match parse_time(until) {
        Ok(bound) => bound,
        Err(e) => {
            return Err(e);
        },
    };
    Ok(query_results(limit, from, to))
}

/// The query of an export: all results within the bounds.
pub fn export_request(since: Option<&str>, until: Option<&str>) -> (r: Result<HistoryQuery, Error>)
    ensures
        request_outcome(usize::MAX, since, until, r),
{
    history_request(usize::MAX, since, until)
}

/// The number of placeholders in a query.
pub open spec fn placeholders(sql: Seq<char>) -> nat {
    sql.filter(|c: char| c == '?').len()
}

proof fn lemma_placeholders_add(a: Seq<char>, b: Seq<char>)
    ensures
        placeholders(a + b) == placeholders(a) + placeholders(b),
{
    Seq::filter_distributes_over_add(a, b, |c: char| c == '?');
}

proof fn lemma_no_placeholders(s: Seq<char>)
    requires
        forall|i: int| 0 <= i < s.len() ==> #[trigger] s[i] != '?',
    ensures
        placeholders(s) == 0,
{
    s.lemma_all_neg_filter_empty(|c: char| c == '?');
}

proof fn lemma_one_placeholder(s: Seq<char>)
    requires
        s.len() > 0,
        s.last() == '?',
        forall|i: int| 0 <= i < s.len() - 1 ==> #[trigger] s[i] != '?',
    ensures
        placeholders(s) == 1,
{
    let rest = s.drop_last();
    assert forall|i: int| 0 <= i < rest.len() implies #[trigger] rest[i] != '?' by {
        assert(rest[i] == s[i]);
    }
    lemma_no_placeholders(rest);
    reveal(Seq::filter);
}

proof fn lemma_select_has_no_placeholders()
    ensures
        placeholders(SELECT_SQL@) == 0,
{
    reveal_strlit(
        "SELECT id, started_at, duration_seconds, server_id, server_name, server_download_url, server_upload_url, server_latency_url,
        latency_ms, jitter_ms, download_mbps, upload_mbps, download_bytes, upload_bytes, error, app_version
        FROM test_runs WHERE 1=1",
    );
    lemma_no_placeholders(SELECT_SQL@);
}

/// A query has as many values as it has placeholders.
pub proof fn law_every_placeholder_has_its_value(
    limit: usize,
    since: Option<Seq<char>>,
    until: Option<Seq<char>>,
)
    ensures
        placeholders(query_sql(limit, since is Some, until is Some)) == query_bind(
            since,
            until,
        ).len(),
{
    let empty = Seq::<char>::empty();
    lemma_select_has_no_placeholders();
    lemma_no_placeholders(empty);
    reveal_strlit(" AND started_at >= ?");
    reveal_strlit(" AND started_at <= ?");
    reveal_strlit(" ORDER BY started_at DESC");
    reveal_strlit(" LIMIT ");
    lemma_one_placeholder(" AND started_at >= ?"@);
    lemma_one_placeholder(" AND started_at <= ?"@);
    lemma_no_placeholders(" ORDER BY started_at DESC"@);
    lemma_no_placeholders(" LIMIT "@);
    lemma_decimal_reads_back(limit as nat);
    assert forall|i: int| 0 <= i < decimal(limit as nat).len() implies #[trigger] decimal(
        limit as nat,
    )[i] != '?' by {
        assert(is_digit(decimal(limit as nat)[i]));
    }
    lemma_no_placeholders(decimal(limit as nat));
    lemma_placeholders_add(" LIMIT "@, decimal(limit as nat));
    let s1 = if since is Some {
        " AND started_at >= ?"@
    } else {
        empty
    };
    let s2 = if until is Some {
        " AND started_at <= ?"@
    } else {
        empty
    };
    let s4 = if limit != usize::MAX {
        " LIMIT "@ + decimal(limit as nat)
    } else {
        empty
    };
    lemma_placeholders_add(SELECT_SQL@, s1);
    lemma_placeholders_add(SELECT_SQL@ + s1, s2);
    lemma_placeholders_add(SELECT_SQL@ + s1 + s2, " ORDER BY started_at DESC"@);
    lemma_placeholders_add(SELECT_SQL@ + s1 + s2 + " ORDER BY started_at DESC"@, s4);
}

/// Each field of a result is stored in the column of its name. A count that a signed number can
/// hold is stored as it is, and a larger one as the number that is less by 2 to the 64th.
pub proof fn law_each_field_has_its_column(result: ResultView, started_at: Seq<char>)
    ensures
        ({
            let row = row_of(result, started_at);
            let m = result.measured;
            &&& row.started_at == started_at
            &&& row.server_id == result.server_id && row.server_name == result.server_name
            &&& row.server_download_url == result.server_download_url
            &&& row.server_upload_url == result.server_upload_url
            &&& row.server_latency_url == result.server_latency_url
            &&& row.latency_ms == m.latency_ms && row.jitter_ms == m.jitter_ms
            &&& row.download_mbps == m.download_mbps && row.upload_mbps == m.upload_mbps
            &&& row.error == result.error && row.app_version == result.app_version
            &&& stored_as(result.duration_seconds, row.duration_seconds)
            &&& stored_as(m.download_bytes, row.download_bytes)
            &&& stored_as(m.upload_bytes, row.upload_bytes)
        }),
{
    lemma_count_is_stored(result.duration_seconds);
    lemma_count_is_stored(result.measured.download_bytes);
    lemma_count_is_stored(result.measured.upload_bytes);
}

/// Whether `stored` is how a count is stored.
pub open spec fn stored_as(count: u64, stored: i64) -> bool {
    stored == count || (count > i64::MAX && stored == count - 0x1_0000_0000_0000_0000)
}

proof fn lemma_count_is_stored(count: u64)
    ensures
        stored_as(count, count as i64),
{
    assert(count > 0x7fff_ffff_ffff_ffff ==> (count as i64) == count - 0x1_0000_0000_0000_0000)
        by (bit_vector);
}

/// What is stored and what is selected are the same columns in the same order, behind the number
/// of the row.
pub proof fn law_columns_are_selected_as_stored()
    ensures
        made_of(
            INSERT_SQL@,
            seq![
                "INSERT INTO test_runs (\n            "@,
                "started_at, duration_seconds, server_id, server_name, server_download_url, server_upload_url, server_latency_url"@,
                ",\n            "@,
                "latency_ms, jitter_ms, download_mbps, upload_mbps, download_bytes, upload_bytes, error, app_version"@,
                "\n        ) VALUES (?1, ?2, ?3, ?4, ?5, ?6, ?7, ?8, ?9, ?10, ?11, ?12, ?13, ?14, ?15)"@,
            ],
        ),
        made_of(
            SELECT_SQL@,
            seq![
                "SELECT id, "@,
                "started_at, duration_seconds, server_id, server_name, server_download_url, server_upload_url, server_latency_url"@,
                ",\n        "@,
                "latency_ms, jitter_ms, download_mbps, upload_mbps, download_bytes, upload_bytes, error, app_version"@,
                "\n        FROM test_runs WHERE 1=1"@,
            ],
        ),
{
    let first = "started_at, duration_seconds, server_id, server_name, server_download_url, server_upload_url, server_latency_url"@;
    let second = "latency_ms, jitter_ms, download_mbps, upload_mbps, download_bytes, upload_bytes, error, app_version"@;
    reveal_strlit(
        "started_at, duration_seconds, server_id, server_name, server_download_url, server_upload_url, server_latency_url",
    );
    reveal_strlit(
        "latency_ms, jitter_ms, download_mbps, upload_mbps, download_bytes, upload_bytes, error, app_version",
    );
    reveal_strlit("INSERT INTO test_runs (\n            ");
    reveal_strlit(",\n            ");
    reveal_strlit(
        "\n        ) VALUES (?1, ?2, ?3, ?4, ?5, ?6, ?7, ?8, ?9, ?10, ?11, ?12, ?13, ?14, ?15)",
    );
    reveal_strlit("SELECT id, ");
    reveal_strlit(",\n        ");
    reveal_strlit("\n        FROM test_runs WHERE 1=1");
    reveal_strlit(
        "INSERT INTO test_runs (
            started_at, duration_seconds, server_id, server_name, server_download_url, server_upload_url, server_latency_url,
            latency_ms, jitter_ms, download_mbps, upload_mbps, download_bytes, upload_bytes, error, app_version
        ) VALUES (?1, ?2, ?3, ?4, ?5, ?6, ?7, ?8, ?9, ?10, ?11, ?12, ?13, ?14, ?15)",
    );
    reveal_strlit(
        "SELECT id, started_at, duration_seconds, server_id, server_name, server_download_url, server_upload_url, server_latency_url,
        latency_ms, jitter_ms, download_mbps, upload_mbps, download_bytes, upload_bytes, error, app_version
        FROM test_runs WHERE 1=1",
    );
    lemma_made_of_five(
        "INSERT INTO test_runs (\n            "@,
        first,
        ",\n            "@,
        second,
        "\n        ) VALUES (?1, ?2, ?3, ?4, ?5, ?6, ?7, ?8, ?9, ?10, ?11, ?12, ?13, ?14, ?15)"@,
    );
    assert(INSERT_SQL@ =~= "INSERT INTO test_runs (\n            "@ + first + ",\n            "@
        + second
        + "\n        ) VALUES (?1, ?2, ?3, ?4, ?5, ?6, ?7, ?8, ?9, ?10, ?11, ?12, ?13, ?14, ?15)"@);
    lemma_made_of_five(
        "SELECT id, "@,
        first,
        ",\n        "@,
        second,
        "\n        FROM test_runs WHERE 1=1"@,
    );
    assert(SELECT_SQL@ =~= "SELECT id, "@ + first + ",\n        "@ + second
        + "\n        FROM test_runs WHERE 1=1"@);
}

/// An instant lies within bounds when it is not before the first nor after the second, each of
/// which is itself within; a bound that is not given excludes nothing.
pub proof fn law_bounds_are_inclusive(t: Timestamp, from: Timestamp, to: Timestamp)
    requires
        t.valid(),
        from.valid(),
        to.valid(),
    ensures
        instant_within(t, None, None),
        instant_within(t, Some(from), None) <==> from.ticks() <= t.ticks(),
        instant_within(t, None, Some(to)) <==> t.ticks() <= to.ticks(),
        instant_within(t, Some(from), Some(to)) <==> from.ticks() <= t.ticks() <= to.ticks(),
        t.earlier(from) <==> t.ticks() < from.ticks(),
{
}

/// A request gives a query exactly when every bound that the user gave is a time; otherwise it
/// gives the error of the first that is not.
pub proof fn law_request_needs_readable_bounds(
    limit: usize,
    since: Option<&str>,
    until: Option<&str>,
    r: Result<HistoryQuery, Error>,
)
    requires
        request_outcome(limit, since, until, r),
    ensures
        r is Ok <==> (since matches Some(text) ==> rfc3339_instant(text@) is Ok) && (
        until matches Some(text) ==> rfc3339_instant(text@) is Ok),
        (since matches Some(text) ==> rfc3339_instant(text@) is Err) && since is Some ==> r
            == Err::<HistoryQuery, Error>(
            Error::Time(rfc3339_instant(since->Some_0@)->Err_0),
        ),
        r is Err && (since matches Some(text) ==> rfc3339_instant(text@) is Ok) ==> until is Some
            && r == Err::<HistoryQuery, Error>(
            Error::Time(rfc3339_instant(until->Some_0@)->Err_0),
        ),
        r matches Ok(query) ==> query.bind@.len() == (if since is Some {
            1int
        } else {
            0
        }) + (if until is Some {
            1int
        } else {
            0
        }),
        r matches Ok(query) ==> (since matches Some(text) ==> query.bind@[0]@ == rfc3339_text(
            rfc3339_instant(text@)->Ok_0,
        )),
        r matches Ok(query) ==> (until matches Some(text) ==> query.bind@.last()@ == rfc3339_text(
            rfc3339_instant(text@)->Ok_0,
        )),
{
    if let Ok(query) = r {
        let texts = texts_of(query.bind@);
        assert(texts.len() == query.bind@.len());
        if since is Some {
            assert(texts[0] == query.bind@[0]@);
        }
        if until is Some {
            assert(texts.last() == query.bind@.last()@);
        }
    }
}

/// What a query asks for, as its text says it.
pub struct QueryMeaning {
    /// Whether it has a condition that a time is not before a value.
    pub since: bool,
    /// Whether it has a condition that a time is not after a value.
    pub until: bool,
    /// Whether it sorts from the latest to the earliest time, or the other way round.
    pub latest_first: bool,
    /// How many results it gives at most, if it says so.
    pub limit: Option<nat>,
}

/// The rest of a text behind how it begins, if it begins so.
pub open spec fn rest_behind(text: Seq<char>, front: Seq<char>) -> Option<Seq<char>> {
    if front.is_prefix_of(text) {
        Some(text.skip(front.len() as int))
    } else {
        None
    }
}

/// Reads a condition off the front of a text: whether it is there, and the rest.
pub open spec fn read_condition(text: Seq<char>, condition: Seq<char>) -> (bool, Seq<char>) {
    match rest_behind(text, condition) {
        Some(rest) => (true, rest),
        None => (false, text),
    }
}

/// Reads a limit off a text, which holds nothing else: the number, or none.
pub open spec fn read_limit(text: Seq<char>) -> Option<Option<nat>> {
    if text.len() == 0 {
        Some(None)
    } else {
        match rest_behind(text, " LIMIT "@) {
            Some(digits) => if all_digits(digits) {
                Some(Some(digits_value(digits)))
            } else {
                None
            },
            None => None,
        }
    }
}

/// Reads a query of the stored results: the selection, conditions on the time, a sort order and a
/// limit.
pub open spec fn meaning_of(sql: Seq<char>) -> Option<QueryMeaning> {
    match rest_behind(sql, SELECT_SQL@) {
        Some(conditions) => {
            let (since, behind_since) = read_condition(conditions, " AND started_at >= ?"@);
            let (until, order) = read_condition(behind_since, " AND started_at <= ?"@);
            match rest_behind(order, " ORDER BY started_at DESC"@) {
                Some(text) => match read_limit(text) {
                    Some(limit) => Some(
                        QueryMeaning { since, until, latest_first: true, limit },
                    ),
                    None => None,
                },
                None => match rest_behind(order, " ORDER BY started_at ASC"@) {
                    Some(text) => match read_limit(text) {
                        Some(limit) => Some(
                            QueryMeaning { since, until, latest_first: false, limit },
                        ),
                        None => None,
                    },
                    None => None,
                },
            }
        },
        None => None,
    }
}

proof fn lemma_rest_behind(front: Seq<char>, rest: Seq<char>)
    ensures
        rest_behind(front + rest, front) == Some(rest),
{
    assert((front + rest).subrange(0, front.len() as int) =~= front);
    assert((front + rest).skip(front.len() as int) =~= rest);
}

proof fn lemma_not_in_front(text: Seq<char>, front: Seq<char>, k: int)
    requires
        0 <= k < front.len(),
        k < text.len() ==> text[k] != front[k],
    ensures
        rest_behind(text, front) is None,
{
    if front.is_prefix_of(text) {
        assert(front[k] == text.subrange(0, front.len() as int)[k]);
    }
}

/// A query says that it wants the latest results first, at most as many as were asked for, with a
/// condition for each bound that was given and no other.
pub proof fn law_query_says_what_is_wanted(limit: usize, since: bool, until: bool)
    ensures
        meaning_of(query_sql(limit, since, until)) == Some(
            QueryMeaning {
                since,
                until,
                latest_first: true,
                limit: if limit == usize::MAX {
                    None
                } else {
                    Some(limit as nat)
                },
            },
        ),
{
    reveal_strlit(" AND started_at >= ?");
    reveal_strlit(" AND started_at <= ?");
    reveal_strlit(" ORDER BY started_at DESC");
    reveal_strlit(" LIMIT ");
    let empty = Seq::<char>::empty();
    let since_text = " AND started_at >= ?"@;
    let until_text = " AND started_at <= ?"@;
    let order_text = " ORDER BY started_at DESC"@;
    let digits = decimal(limit as nat);
    let tail = if limit != usize::MAX {
        " LIMIT "@ + digits
    } else {
        empty
    };
    let ordered = order_text + tail;
    let bounded = (if until {
        until_text
    } else {
        empty
    }) + ordered;
    let conditions = (if since {
        since_text
    } else {
        empty
    }) + bounded;
    assert(query_sql(limit, since, until) =~= SELECT_SQL@ + conditions);
    lemma_rest_behind(SELECT_SQL@, conditions);
    assert(empty + ordered =~= ordered);
    assert(empty + bounded =~= bounded);
    if since {
        lemma_rest_behind(since_text, bounded);
    } else if until {
        lemma_not_in_front(bounded, since_text, 16);
    } else {
        lemma_not_in_front(bounded, since_text, 1);
    }
    if until {
        lemma_rest_behind(until_text, ordered);
    } else {
        lemma_not_in_front(ordered, until_text, 1);
    }
    lemma_rest_behind(order_text, tail);
    if limit != usize::MAX {
        lemma_decimal_reads_back(limit as nat);
        lemma_rest_behind(" LIMIT "@, digits);
    }
}

/// Whether the time of a row meets the conditions of a query with these values.
pub open spec fn meets(q: QueryMeaning, bind: Seq<Seq<char>>, row: RowView) -> bool {
    &&& q.since ==> !text_before(row.started_at, bind[0])
    &&& q.until ==> !text_before(bind.last(), row.started_at)
}

/// Whether a query gives row `a` before row `b`, or may, if they have the same time.
pub open spec fn given_before(q: QueryMeaning, a: RowView, b: RowView) -> bool {
    if q.latest_first {
        !text_before(a.started_at, b.started_at)
    } else {
        !text_before(b.started_at, a.started_at)
    }
}

/// Whether a query of this meaning may give the rows at these places of a table, in this order:
/// rows that meet its conditions, sorted, each once, and all of them unless there are more than
/// it wants, in which case those that come first.
pub open spec fn may_give(
    q: QueryMeaning,
    bind: Seq<Seq<char>>,
    table: Seq<RowView>,
    places: Seq<int>,
) -> bool {
    &&& places.no_duplicates()
    &&& forall|i: int|
        0 <= i < places.len() ==> 0 <= #[trigger] places[i] < table.len() && meets(
            q,
            bind,
            table[places[i]],
        )
    &&& forall|i: int, j: int|
        0 <= i < j < places.len() ==> given_before(q, table[places[i]], table[places[j]])
    &&& q.limit matches Some(n) ==> places.len() <= n
    &&& forall|p: int|
        0 <= p < table.len() && meets(q, bind, #[trigger] table[p]) && !places.contains(p) ==> {
            &&& q.limit == Some(places.len())
            &&& forall|i: int|
                0 <= i < places.len() ==> given_before(q, table[#[trigger] places[i]], table[p])
        }
}

/// What a query for results gives of a table are rows whose time is within the bounds, from the
/// latest to the earliest, at most as many as were asked for, and a row within the bounds is left
/// out only if so many were given and none of them is earlier than it.
pub proof fn law_query_gives_the_latest(
    limit: usize,
    since: Option<Seq<char>>,
    until: Option<Seq<char>>,
    table: Seq<RowView>,
    places: Seq<int>,
)
    requires
        meaning_of(query_sql(limit, since is Some, until is Some)) matches Some(q) && may_give(
            q,
            query_bind(since, until),
            table,
            places,
        ),
    ensures
        forall|i: int|
            0 <= i < places.len() ==> 0 <= #[trigger] places[i] < table.len() && text_within(
                table[places[i]].started_at,
                since,
                until,
            ),
        forall|i: int, j: int|
            0 <= i < j < places.len() ==> !text_before(
                table[places[i]].started_at,
                table[places[j]].started_at,
            ),
        limit != usize::MAX ==> places.len() <= limit,
        forall|p: int|
            0 <= p < table.len() && text_within(
                (#[trigger] table[p]).started_at,
                since,
                until,
            ) && !places.contains(p) ==> {
                &&& limit != usize::MAX && places.len() == limit
                &&& forall|i: int|
                    0 <= i < places.len() ==> !text_before(
                        table[#[trigger] places[i]].started_at,
                        table[p].started_at,
                    )
            },
{
    law_query_says_what_is_wanted(limit, since is Some, until is Some);
    let q = meaning_of(query_sql(limit, since is Some, until is Some))->Some_0;
    let bind = query_bind(since, until);
    assert forall|row: RowView| meets(q, bind, row) <==> #[trigger] text_within(
        row.started_at,
        since,
        until,
    ) by {
        if until is Some {
            assert(bind.last() == until->Some_0);
        }
        if since is Some {
            assert(bind[0] == since->Some_0);
        }
    }
    assert forall|i: int| 0 <= i < places.len() implies 0 <= #[trigger] places[i] < table.len()
        && text_within(table[places[i]].started_at, since, until) by {
        assert(meets(q, bind, table[places[i]]));
    }
    assert forall|i: int, j: int| 0 <= i < j < places.len() implies !text_before(
        table[places[i]].started_at,
        table[places[j]].started_at,
    ) by {
        assert(given_before(q, table[places[i]], table[places[j]]));
    }
    assert forall|p: int|
        0 <= p < table.len() && text_within((#[trigger] table[p]).started_at, since, until)
            && !places.contains(p) implies {
        &&& limit != usize::MAX && places.len() == limit
        &&& forall|i: int|
            0 <= i < places.len() ==> !text_before(
                table[#[trigger] places[i]].started_at,
                table[p].started_at,
            )
    } by {
        assert(meets(q, bind, table[p]));
        assert forall|i: int| 0 <= i < places.len() implies !text_before(
            table[#[trigger] places[i]].started_at,
            table[p].started_at,
        ) by {
            assert(given_before(q, table[places[i]], table[p]));
        }
    }
}

/// The same by the clock: where rows are stored under the texts of their times, texts sort as the
/// times do, and the bounds select by time, a query gives the results within the bounds from the
/// latest to the earliest.
pub proof fn law_history_is_by_time(
    limit: usize,
    since: Option<Timestamp>,
    until: Option<Timestamp>,
    table: Seq<RowView>,
    times: Seq<Timestamp>,
    places: Seq<int>,
)
    requires
        meaning_of(query_sql(limit, since is Some, until is Some)) matches Some(q) && may_give(
            q,
            query_bind(bound_text(since), bound_text(until)),
            table,
            places,
        ),
        selects_by_time(since, until),
        four_digit_bound(since),
        four_digit_bound(until),
        times.len() == table.len(),
        forall|i: int|
            0 <= i < table.len() ==> {
                &&& (#[trigger] times[i]).valid() && times[i].in_four_digit_year()
                &&& table[i].started_at == rfc3339_text(times[i])
            },
        forall|i: int, j: int|
            0 <= i < table.len() && 0 <= j < table.len() ==> (text_before(
                (#[trigger] table[i]).started_at,
                (#[trigger] table[j]).started_at,
            ) <==> times[i].earlier(times[j])),
    ensures
        forall|i: int|
            0 <= i < places.len() ==> 0 <= #[trigger] places[i] < times.len() && instant_within(
                times[places[i]],
                since,
                until,
            ),
        forall|i: int, j: int|
            0 <= i < j < places.len() ==> !times[places[i]].earlier(times[places[j]]),
        limit != usize::MAX ==> places.len() <= limit,
        forall|p: int|
            0 <= p < times.len() && instant_within(#[trigger] times[p], since, until)
                && !places.contains(p) ==> {
                &&& limit != usize::MAX && places.len() == limit
                &&& forall|i: int|
                    0 <= i < places.len() ==> !times[#[trigger] places[i]].earlier(times[p])
            },
{
    law_query_gives_the_latest(limit, bound_text(since), bound_text(until), table, places);
    assert forall|i: int| 0 <= i < table.len() implies (text_within(
        (#[trigger] table[i]).started_at,
        bound_text(since),
        bound_text(until),
    ) <==> instant_within(times[i], since, until)) by {
        assert(times[i].valid());
        assert(table[i].started_at == rfc3339_text(times[i]));
    }
    assert forall|i: int| 0 <= i < places.len() implies 0 <= #[trigger] places[i] < times.len()
        && instant_within(times[places[i]], since, until) by {
        let row = table[places[i]];
    }
    assert forall|i: int, j: int| 0 <= i < j < places.len() implies !times[places[i]].earlier(
        times[places[j]],
    ) by {
        assert(!text_before(table[places[i]].started_at, table[places[j]].started_at));
    }
    assert forall|p: int|
        0 <= p < times.len() && instant_within(#[trigger] times[p], since, until)
            && !places.contains(p) implies {
        &&& limit != usize::MAX && places.len() == limit
        &&& forall|i: int|
            0 <= i < places.len() ==> !times[#[trigger] places[i]].earlier(times[p])
    } by {
        let row = table[p];
        assert(text_within(row.started_at, bound_text(since), bound_text(until)));
        assert forall|i: int| 0 <= i < places.len() implies !times[#[trigger] places[i]].earlier(
            times[p],
        ) by {
            assert(!text_before(table[places[i]].started_at, table[p].started_at));
        }
    }
}

/// A row is read exactly when its text of the time is one, and otherwise gives the reason why it
/// is not. What is read has the number of the row, the instant of that text, and each field from
/// the column of its name.
pub proof fn law_row_reads_as_its_columns(id: i64, row: RowView)
    ensures
        stored_result(id, row) is Ok <==> rfc3339_instant(row.started_at) is Ok,
        stored_result(id, row) is Err ==> stored_result(id, row)->Err_0 == rfc3339_instant(
            row.started_at,
        )->Err_0,
        stored_result(id, row) matches Ok(result) ==> {
            let m = result.measured;
            &&& result.id == Some(id)
            &&& result.started_at == rfc3339_instant(row.started_at)->Ok_0
            &&& result.server_id == row.server_id && result.server_name == row.server_name
            &&& result.server_download_url == row.server_download_url
            &&& result.server_upload_url == row.server_upload_url
            &&& result.server_latency_url == row.server_latency_url
            &&& m.latency_ms == row.latency_ms && m.jitter_ms == row.jitter_ms
            &&& m.download_mbps == row.download_mbps && m.upload_mbps == row.upload_mbps
            &&& result.error == row.error && result.app_version == row.app_version
            &&& stored_as(result.duration_seconds, row.duration_seconds)
            &&& stored_as(m.download_bytes, row.download_bytes)
            &&& stored_as(m.upload_bytes, row.upload_bytes)
        },
{
    lemma_count_is_read(row.duration_seconds);
    lemma_count_is_read(row.download_bytes);
    lemma_count_is_read(row.upload_bytes);
}

proof fn lemma_count_is_read(stored: i64)
    ensures
        stored_as(stored as u64, stored),
{
    assert((stored as u64) as i64 == stored) by (bit_vector);
    lemma_count_is_stored(stored as u64);
}

} // verus!
