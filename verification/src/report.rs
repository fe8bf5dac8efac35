//! What the user is shown: lines, tables and exported records.

use crate::config::{AppConfig, Server, ServerView};
use crate::error::Error;
use crate::number::{
    all_digits, digits_value, law_signed_number_reads_back, lemma_decimal_reads_back,
};
use crate::result::{MeasureTexts, ResultView, TestResult};
use crate::run::{measures, Phase, RuntimeOptions, TestUnit};
use crate::text::{
    decimal, decimal_text, lemma_made_of, lemma_made_of_five, lemma_made_of_four,
    lemma_made_of_two, made_of, signed_decimal, signed_decimal_text, texts_of,
};
use crate::time::{rfc3339_text, write_rfc3339};
use vstd::prelude::*;

verus! {

/// The line between the parts of a run's display.
pub const RULE: &'static str = "=====================================";

/// Told when there is no server to list.
pub const NO_SERVERS_LISTED: &'static str = "没有可用服务器";

/// Told when there is no result to list.
pub const NO_HISTORY: &'static str = "暂无历史记录";

/// Told when a result was stored.
pub const RESULT_SAVED: &'static str = "测试结果已保存";

/// The title of a run.
pub open spec fn title_text(version: Seq<char>) -> Seq<char> {
    "🏠 家庭网络速度测试 v"@ + version
}

/// The title of a run.
pub fn title(version: &str) -> (r: String)
    ensures
        r@ == title_text(version@),
{
    "🏠 家庭网络速度测试 v".to_owned().concat(version)
}

/// The line that names the server of a run, with the time of its selection probe if there was
/// one.
pub open spec fn server_text(name: Seq<char>, probe_ms: Option<Seq<char>>) -> Seq<char> {
    match probe_ms {
        Some(ms) => "📍 测试服务器: "@ + name + " (探测延迟: "@ + ms + "ms)"@,
        None => "📍 测试服务器: "@ + name,
    }
}

/// The line that names the server of a run.
pub fn server_line(name: &str, probe_ms: Option<&str>) -> (r: String)
    ensures
        r@ == server_text(
            name@,
            match probe_ms {
                Some(ms) => Some(ms@),
                None => None,
            },
        ),
{
    let mut line = "📍 测试服务器: ".to_owned().concat(name);
    match probe_ms {
        Some(ms) => {
            line.append(" (探测延迟: ");
            line.append(ms);
            line.append("ms)");
        },
        None => {},
    }
    line
}

/// The line for a measured latency and jitter, each already coloured.
pub open spec fn latency_text(latency: Seq<char>, jitter: Seq<char>) -> Seq<char> {
    "✅ 延迟: "@ + latency + "  抖动: "@ + jitter
}

/// The line for a measured latency and jitter, each already coloured.
pub fn latency_line(latency: &str, jitter: &str) -> (r: String)
    ensures
        r@ == latency_text(latency@, jitter@),
{
    "✅ 延迟: ".to_owned().concat(latency).concat("  抖动: ").concat(jitter)
}

/// The line for a measured download, already coloured.
pub open spec fn download_text(speed: Seq<char>) -> Seq<char> {
    "✅ 下载速度: "@ + speed
}

/// The line for a measured download, already coloured.
pub fn download_line(speed: &str) -> (r: String)
    ensures
        r@ == download_text(speed@),
{
    "✅ 下载速度: ".to_owned().concat(speed)
}

/// The line for a measured upload, already coloured.
pub open spec fn upload_text(speed: Seq<char>) -> Seq<char> {
    "✅ 上传速度: "@ + speed
}

/// The line for a measured upload, already coloured.
pub fn upload_line(speed: &str) -> (r: String)
    ensures
        r@ == upload_text(speed@),
{
    "✅ 上传速度: ".to_owned().concat(speed)
}

/// The line after an export.
pub open spec fn export_text(path: Seq<char>) -> Seq<char> {
    "导出完成: "@ + path
}

/// The line after an export.
pub fn export_line(path: &str) -> (r: String)
    ensures
        r@ == export_text(path@),
{
    "导出完成: ".to_owned().concat(path)
}

/// The result of a run of this unit as one line of pairs.
pub open spec fn pairs_line(unit: TestUnit, texts: MeasureTexts, down: u64, up: u64) -> Seq<char> {
    match unit {
        TestUnit::All => "download_mbps="@ + texts.download_mbps@ + " upload_mbps="@
            + texts.upload_mbps@ + " latency_ms="@ + texts.latency_ms@,
        TestUnit::Latency => "latency_ms="@ + texts.latency_ms@ + " jitter_ms="@ + texts.jitter_ms@,
        TestUnit::Download => "download_mbps="@ + texts.download_mbps@ + " download_bytes="@
            + decimal(down as nat),
        TestUnit::Upload => "upload_mbps="@ + texts.upload_mbps@ + " upload_bytes="@ + decimal(
            up as nat,
        ),
    }
}

/// The result of a run of this unit as one line of pairs.
pub fn quiet_line(unit: TestUnit, texts: &MeasureTexts, down: u64, up: u64) -> (r: String)
    ensures
        r@ == pairs_line(unit, *texts, down, up),
{
    match unit {
        TestUnit::All => {
            "download_mbps=".to_owned().concat(texts.download_mbps.as_str()).concat(
                " upload_mbps=",
            ).concat(texts.upload_mbps.as_str()).concat(" latency_ms=").concat(
                texts.latency_ms.as_str(),
            )
        },
        TestUnit::Latency => {
            "latency_ms=".to_owned().concat(texts.latency_ms.as_str()).concat(
                " jitter_ms=",
            ).concat(texts.jitter_ms.as_str())
        },
        TestUnit::Download => {
            "download_mbps=".to_owned().concat(texts.download_mbps.as_str()).concat(
                " download_bytes=",
            ).concat(decimal_text(down).as_str())
        },
        TestUnit::Upload => {
            "upload_mbps=".to_owned().concat(texts.upload_mbps.as_str()).concat(
                " upload_bytes=",
            ).concat(decimal_text(up).as_str())
        },
    }
}

/// A line of the table of a run's result.
#[derive(Debug, PartialEq, Eq)]
pub struct ResultRow {
    pub metric: String,
    pub value: String,
    pub unit: String,
}

/// The texts of a [`ResultRow`].
#[verifier::ext_equal]
pub struct ResultRowView {
    pub metric: Seq<char>,
    pub value: Seq<char>,
    pub unit: Seq<char>,
}

impl View for ResultRow {
    type V = ResultRowView;

    open spec fn view(&self) -> ResultRowView {
        ResultRowView { metric: self.metric@, value: self.value@, unit: self.unit@ }
    }
}

/// The texts of each line of a table.
pub open spec fn result_row_views(rows: Seq<ResultRow>) -> Seq<ResultRowView> {
    rows.map_values(|r: ResultRow| r@)
}

/// The table of the result of a run of this unit: a line for each quantity that it measured.
pub open spec fn result_table(unit: TestUnit, texts: MeasureTexts) -> Seq<ResultRowView> {
    (if measures(unit, Phase::Latency) {
        seq![
            ResultRowView { metric: "延迟"@, value: texts.latency_ms@, unit: "ms"@ },
            ResultRowView { metric: "抖动"@, value: texts.jitter_ms@, unit: "ms"@ },
        ]
    } else {
        Seq::empty()
    }) + (if measures(unit, Phase::Download) {
        seq![ResultRowView { metric: "下载速度"@, value: texts.download_mbps@, unit: "Mbps"@ }]
    } else {
        Seq::empty()
    }) + (if measures(unit, Phase::Upload) {
        seq![ResultRowView { metric: "上传速度"@, value: texts.upload_mbps@, unit: "Mbps"@ }]
    } else {
        Seq::empty()
    })
}

fn result_row(metric: &str, value: &String, unit: &str) -> (r: ResultRow)
    ensures
        r@ == (ResultRowView { metric: metric@, value: value@, unit: unit@ }),
{
    ResultRow { metric: metric.to_owned(), value: value.clone(), unit: unit.to_owned() }
}

/// The table of the result of a run of this unit.
pub fn result_rows(unit: TestUnit, texts: &MeasureTexts) -> (r: Vec<ResultRow>)
    ensures
        result_row_views(r@) == result_table(unit, *texts),
{
    let mut rows: Vec<ResultRow> = Vec::new();
    if unit == TestUnit::All || unit == TestUnit::Latency {
        rows.push(result_row("延迟", &texts.latency_ms, "ms"));
        rows.push(result_row("抖动", &texts.jitter_ms, "ms"));
    }
    if unit == TestUnit::All || unit == TestUnit::Download {
        rows.push(result_row("下载速度", &texts.download_mbps, "Mbps"));
    }
    if unit == TestUnit::All || unit == TestUnit::Upload {
        rows.push(result_row("上传速度", &texts.upload_mbps, "Mbps"));
    }
    assert(result_row_views(rows@) =~= result_table(unit, *texts));
    rows
}

/// A run's result as a titled table.
#[derive(Debug, PartialEq, Eq)]
pub struct ResultPage {
    pub title: String,
    pub server: String,
    pub rows: Vec<ResultRow>,
}

/// A run's result as a titled table.
pub fn print_test_result(
    result: &TestResult,
    texts: &MeasureTexts,
    unit: TestUnit,
    version: &str,
) -> (r: ResultPage)
    ensures
        r.title@ == title_text(version@),
        r.server@ == server_text(result.server_name@, None),
        result_row_views(r.rows@) == result_table(unit, *texts),
{
    ResultPage {
        title: title(version),
        server: server_line(result.server_name.as_str(), None),
        rows: result_rows(unit, texts),
    }
}

/// How a run's result is shown.
#[derive(Debug, PartialEq, Eq)]
pub enum RunReport {
    /// As JSON.
    Json,
    /// As this line.
    Line(String),
    /// As this table.
    Page(ResultPage),
}

/// Whether `report` is how a run's result is shown: as JSON if asked for, else as one line if
/// quiet is asked for, and as a table otherwise.
pub open spec fn reports_run(
    report: RunReport,
    options: RuntimeOptions,
    result: TestResult,
    texts: MeasureTexts,
    version: Seq<char>,
) -> bool {
    match report {
        RunReport::Json => options.json,
        RunReport::Line(line) => {
            &&& !options.json && options.quiet
            &&& line@ == pairs_line(
                options.unit,
                texts,
                result.measured.download_bytes,
                result.measured.upload_bytes,
            )
        },
        RunReport::Page(page) => {
            &&& !options.json && !options.quiet
            &&& page.title@ == title_text(version)
            &&& page.server@ == server_text(result.server_name@, None)
            &&& result_row_views(page.rows@) == result_table(options.unit, texts)
        },
    }
}

/// How a run's result is shown.
pub fn run_report(
    options: &RuntimeOptions,
    result: &TestResult,
    texts: &MeasureTexts,
    version: &str,
) -> (r: RunReport)
    ensures
        reports_run(r, *options, *result, *texts, version@),
{
    if options.json {
        RunReport::Json
    } else if options.quiet {
        RunReport::Line(
            quiet_line(
                options.unit,
                texts,
                result.measured.download_bytes,
                result.measured.upload_bytes,
            ),
        )
    } else {
        RunReport::Page(print_test_result(result, texts, options.unit, version))
    }
}

/// A run that is asked for JSON gives its result as JSON and nothing else: no progress, no line,
/// no table, and no notice that the result was stored.
pub proof fn law_json_run_gives_only_json(
    report: RunReport,
    options: RuntimeOptions,
    result: TestResult,
    texts: MeasureTexts,
    version: Seq<char>,
)
    requires
        options.json,
        reports_run(report, options, result, texts, version),
    ensures
        report is Json,
        !options.shows_progress(),
        !options.tells_saving(),
{
}

/// A quiet run that is not asked for JSON gives its line of pairs and nothing else.
pub proof fn law_quiet_run_gives_only_its_line(
    report: RunReport,
    options: RuntimeOptions,
    result: TestResult,
    texts: MeasureTexts,
    version: Seq<char>,
)
    requires
        options.quiet,
        !options.json,
        reports_run(report, options, result, texts, version),
    ensures
        report is Line,
        !options.shows_progress(),
        !options.tells_saving(),
{
}

/// A line of the table of servers.
#[derive(Debug, PartialEq, Eq)]
pub struct ServerRow {
    pub id: String,
    pub name: String,
    pub latency_url: String,
}

/// Whether a line lists this server.
pub open spec fn lists(row: ServerRow, server: ServerView) -> bool {
    row.id@ == server.id && row.name@ == server.name && row.latency_url@ == server.latency_url
}

/// Whether `r` is the table of these servers: a line for each, in their order, if there are any.
pub open spec fn lists_all(r: Option<Vec<ServerRow>>, servers: Seq<ServerView>) -> bool {
    match r {
        Some(rows) => {
            &&& servers.len() > 0
            &&& rows@.len() == servers.len()
            &&& forall|i: int| 0 <= i < rows@.len() ==> lists(#[trigger] rows@[i], servers[i])
        },
        None => servers.len() == 0,
    }
}

/// The table of the configured servers.
pub fn server_rows(cfg: &AppConfig) -> (r: Option<Vec<ServerRow>>)
    ensures
        lists_all(r, cfg@.servers),
{
    if cfg.servers.len() == 0 {
        return None;
    }
    let mut rows: Vec<ServerRow> = Vec::new();
    let mut i: usize = 0;
    while i < cfg.servers.len()
        invariant
            i <= cfg.servers.len(),
            rows@.len() == i,
            forall|k: int| 0 <= k < i ==> lists(#[trigger] rows@[k], cfg@.servers[k]),
        decreases cfg.servers.len() - i,
    {
        let server = &cfg.servers[i];
        rows.push(
            ServerRow {
                id: server.id.clone(),
                name: server.name.clone(),
                latency_url: server.latency_url.clone(),
            },
        );
        i += 1;
    }
    Some(rows)
}

/// A line of the table of probed servers.
#[derive(Debug, PartialEq, Eq)]
pub struct ProbeRow {
    pub server: String,
    pub latency_ms: String,
    pub jitter_ms: String,
    pub status: String,
}

/// Whether a line reports what probing this server brought: the latency and the jitter as they
/// are shown, or why there are none.
pub open spec fn reports(
    row: ProbeRow,
    server: ServerView,
    outcome: Result<(String, String), Error>,
) -> bool {
    &&& row.server@ == server.name
    &&& match outcome {
        Ok((latency, jitter)) => {
            &&& row.latency_ms@ == latency@
            &&& row.jitter_ms@ == jitter@
            &&& row.status@ == "ok"@
        },
        Err(e) => {
            &&& row.latency_ms@ == "-"@
            &&& row.jitter_ms@ == "-"@
            &&& row.status@ == e.text()
        },
    }
}

/// The line for a probed server.
pub fn probe_row(server: &Server, outcome: &Result<(String, String), Error>) -> (r: ProbeRow)
    ensures
        reports(r, server@, *outcome),
{
    match outcome {
        Ok((latency, jitter)) => ProbeRow {
            server: server.name.clone(),
            latency_ms: latency.clone(),
            jitter_ms: jitter.clone(),
            status: "ok".to_owned(),
        },
        Err(e) => ProbeRow {
            server: server.name.clone(),
            latency_ms: "-".to_owned(),
            jitter_ms: "-".to_owned(),
            status: e.message(),
        },
    }
}

/// Whether the lines report what probing each of these servers brought, in their order.
pub open spec fn reports_all(
    rows: Seq<ProbeRow>,
    servers: Seq<ServerView>,
    outcomes: Seq<Result<(String, String), Error>>,
) -> bool {
    &&& rows.len() == servers.len()
    &&& forall|i: int| 0 <= i < rows.len() ==> reports(#[trigger] rows[i], servers[i], outcomes[i])
}

/// The table of the probed servers, given what probing each of the configured ones brought: a
/// line for every one, in their order, whichever of them failed.
pub fn probe_rows(cfg: &AppConfig, outcomes: &Vec<Result<(String, String), Error>>) -> (r: Vec<
    ProbeRow,
>)
    requires
        outcomes@.len() == cfg@.servers.len(),
    ensures
        reports_all(r@, cfg@.servers, outcomes@),
{
    let mut rows: Vec<ProbeRow> = Vec::new();
    let mut i: usize = 0;
    while i < cfg.servers.len()
        invariant
            i <= cfg.servers.len(),
            outcomes@.len() == cfg@.servers.len(),
            rows@.len() == i,
            forall|k: int|
                0 <= k < i ==> reports(#[trigger] rows@[k], cfg@.servers[k], outcomes@[k]),
        decreases cfg.servers.len() - i,
    {
        rows.push(probe_row(&cfg.servers[i], &outcomes[i]));
        i += 1;
    }
    rows
}

/// A line of the table of stored results.
#[derive(Debug, PartialEq, Eq)]
pub struct HistoryRow {
    pub id: i64,
    pub started_at: String,
    pub server: String,
    pub latency_ms: String,
    pub download_mbps: String,
    pub upload_mbps: String,
}

/// What a [`HistoryRow`] holds.
#[verifier::ext_equal]
pub struct HistoryRowView {
    pub id: i64,
    pub started_at: Seq<char>,
    pub server: Seq<char>,
    pub latency_ms: Seq<char>,
    pub download_mbps: Seq<char>,
    pub upload_mbps: Seq<char>,
}

impl View for HistoryRow {
    type V = HistoryRowView;

    open spec fn view(&self) -> HistoryRowView {
        HistoryRowView {
            id: self.id,
            started_at: self.started_at@,
            server: self.server@,
            latency_ms: self.latency_ms@,
            download_mbps: self.download_mbps@,
            upload_mbps: self.upload_mbps@,
        }
    }
}

/// The texts of each line of a table.
pub open spec fn history_row_views(rows: Seq<HistoryRow>) -> Seq<HistoryRowView> {
    rows.map_values(|r: HistoryRow| r@)
}

/// The line for a stored result, given how its time is written.
pub open spec fn history_line(
    id: i64,
    result: ResultView,
    started_at: Seq<char>,
    texts: MeasureTexts,
) -> HistoryRowView {
    HistoryRowView {
        id,
        started_at,
        server: result.server_name,
        latency_ms: texts.latency_ms@,
        download_mbps: texts.download_mbps@,
        upload_mbps: texts.upload_mbps@,
    }
}

/// The table of the first `n` results: a line for each that is stored.
pub open spec fn history_table(
    results: Seq<TestResult>,
    texts: Seq<MeasureTexts>,
    n: int,
) -> Seq<HistoryRowView>
    decreases n,
{
    if n <= 0 {
        Seq::empty()
    } else {
        let before = history_table(results, texts, n - 1);
        let result = results[n - 1];
        match result.id {
            Some(id) => before.push(
                history_line(id, result@, rfc3339_text(result.started_at), texts[n - 1]),
            ),
            None => before,
        }
    }
}

/// The line for a stored result, given how its time is written; none if it is not stored.
pub fn history_row(result: &TestResult, started_at: String, texts: &MeasureTexts) -> (r: Option<
    HistoryRow,
>)
    ensures
        match result.id {
            Some(id) => {
                &&& r matches Some(row)
                &&& row@ == history_line(id, result@, started_at@, *texts)
            },
            None => r is None,
        },
{
    match result.id {
        Some(id) => Some(
            HistoryRow {
                id,
                started_at,
                server: result.server_name.clone(),
                latency_ms: texts.latency_ms.clone(),
                download_mbps: texts.download_mbps.clone(),
                upload_mbps: texts.upload_mbps.clone(),
            },
        ),
        None => None,
    }
}

/// How stored results are listed.
#[derive(Debug, PartialEq, Eq)]
pub enum HistoryReport {
    /// As JSON.
    Json,
    /// As the notice that there are none.
    Nothing,
    /// As this table.
    Table(Vec<HistoryRow>),
}

/// Whether `report` is how stored results are listed: as JSON if asked for, else as a notice if
/// there are none, and as a table otherwise.
pub open spec fn reports_history(
    report: HistoryReport,
    results: Seq<TestResult>,
    texts: Seq<MeasureTexts>,
    json: bool,
) -> bool {
    match report {
        HistoryReport::Json => json,
        HistoryReport::Nothing => !json && results.len() == 0,
        HistoryReport::Table(rows) => {
            &&& !json && results.len() > 0
            &&& history_row_views(rows@) == history_table(results, texts, results.len() as int)
        },
    }
}

/// How stored results are listed.
pub fn run_history(results: &Vec<TestResult>, texts: &Vec<MeasureTexts>, json: bool) -> (r:
    HistoryReport)
    requires
        results@.len() == texts@.len(),
        forall|i: int| 0 <= i < results@.len() ==> (#[trigger] results@[i]).started_at.valid(),
    ensures
        reports_history(r, results@, texts@, json),
{
    if json {
        return HistoryReport::Json;
    }
    if results.len() == 0 {
        return HistoryReport::Nothing;
    }
    let mut rows: Vec<HistoryRow> = Vec::new();
    let mut i: usize = 0;
    assert(history_row_views(rows@) =~= history_table(results@, texts@, 0));
    while i < results.len()
        invariant
            i <= results.len(),
            results@.len() == texts@.len(),
            forall|k: int| 0 <= k < results@.len() ==> (#[trigger] results@[k]).started_at.valid(),
            history_row_views(rows@) == history_table(results@, texts@, i as int),
        decreases results.len() - i,
    {
        let ghost before = rows@;
        let started_at = write_rfc3339(results[i].started_at);
        match history_row(&results[i], started_at, &texts[i]) {
            Some(row) => {
                rows.push(row);
                assert(history_row_views(rows@) =~= history_row_views(before).push(row@));
            },
            None => {},
        }
        i += 1;
    }
    HistoryReport::Table(rows)
}

/// The names of the exported columns.
pub open spec fn csv_columns() -> Seq<Seq<char>> {
    seq![
        "id"@,
        "started_at"@,
        "duration_seconds"@,
        "server_id"@,
        "server_name"@,
        "latency_ms"@,
        "jitter_ms"@,
        "download_mbps"@,
        "upload_mbps"@,
        "download_bytes"@,
        "upload_bytes"@,
        "error"@,
        "app_version"@,
    ]
}

/// The header of an export.
pub fn csv_header() -> (r: Vec<String>)
    ensures
        texts_of(r@) == csv_columns(),
{
    let mut fields: Vec<String> = Vec::new();
    fields.push("id".to_owned());
    fields.push("started_at".to_owned());
    fields.push("duration_seconds".to_owned());
    fields.push("server_id".to_owned());
    fields.push("server_name".to_owned());
    fields.push("latency_ms".to_owned());
    fields.push("jitter_ms".to_owned());
    fields.push("download_mbps".to_owned());
    fields.push("upload_mbps".to_owned());
    fields.push("download_bytes".to_owned());
    fields.push("upload_bytes".to_owned());
    fields.push("error".to_owned());
    fields.push("app_version".to_owned());
    assert(texts_of(fields@) =~= csv_columns());
    fields
}

/// The exported fields of a result, given how its time is written. A result that is not stored
/// has the number 0, and one without an error an empty field for it.
pub open spec fn csv_values(
    result: ResultView,
    started_at: Seq<char>,
    texts: MeasureTexts,
) -> Seq<Seq<char>> {
    seq![
        match result.id {
            Some(id) => signed_decimal(id as int),
            None => signed_decimal(0),
        },
        started_at,
        decimal(result.duration_seconds as nat),
        result.server_id,
        result.server_name,
        texts.latency_ms@,
        texts.jitter_ms@,
        texts.download_mbps@,
        texts.upload_mbps@,
        decimal(result.measured.download_bytes as nat),
        decimal(result.measured.upload_bytes as nat),
        match result.error {
            Some(text) => text,
            None => Seq::empty(),
        },
        result.app_version,
    ]
}

/// The exported fields of a result, given how its time is written.
pub fn csv_fields(result: &TestResult, started_at: String, texts: &MeasureTexts) -> (r: Vec<String>)
    ensures
        texts_of(r@) == csv_values(result@, started_at@, *texts),
{
    let ghost time = started_at@;
    let mut fields: Vec<String> = Vec::new();
    fields.push(signed_decimal_text(result.id.unwrap_or(0)));
    fields.push(started_at);
    fields.push(decimal_text(result.duration_seconds));
    fields.push(result.server_id.clone());
    fields.push(result.server_name.clone());
    fields.push(texts.latency_ms.clone());
    fields.push(texts.jitter_ms.clone());
    fields.push(texts.download_mbps.clone());
    fields.push(texts.upload_mbps.clone());
    fields.push(decimal_text(result.measured.download_bytes));
    fields.push(decimal_text(result.measured.upload_bytes));
    fields.push(
        match &result.error {
            Some(text) => text.clone(),
            None => String::new(),
        },
    );
    fields.push(result.app_version.clone());
    assert(texts_of(fields@) =~= csv_values(result@, time, *texts));
    fields
}

/// The exported record of a result.
pub fn csv_record(result: &TestResult, texts: &MeasureTexts) -> (r: Vec<String>)
    requires
        result.started_at.valid(),
    ensures
        texts_of(r@) == csv_values(result@, rfc3339_text(result.started_at), *texts),
{
    csv_fields(result, write_rfc3339(result.started_at), texts)
}

/// The export of the first `n` results: the header, and a record for each of them.
pub open spec fn csv_rows(
    results: Seq<TestResult>,
    texts: Seq<MeasureTexts>,
    n: int,
) -> Seq<Seq<Seq<char>>>
    decreases n,
{
    if n <= 0 {
        seq![csv_columns()]
    } else {
        let result = results[n - 1];
        csv_rows(results, texts, n - 1).push(
            csv_values(result@, rfc3339_text(result.started_at), texts[n - 1]),
        )
    }
}

/// The texts of each record.
pub open spec fn record_texts(records: Seq<Vec<String>>) -> Seq<Seq<Seq<char>>> {
    records.map_values(|fields: Vec<String>| texts_of(fields@))
}

/// The export of results: the header, and a record for each of them, in their order.
pub fn csv_table(results: &Vec<TestResult>, texts: &Vec<MeasureTexts>) -> (r: Vec<Vec<String>>)
    requires
        results@.len() == texts@.len(),
        forall|i: int| 0 <= i < results@.len() ==> (#[trigger] results@[i]).started_at.valid(),
    ensures
        record_texts(r@) == csv_rows(results@, texts@, results@.len() as int),
{
    let mut records: Vec<Vec<String>> = Vec::new();
    records.push(csv_header());
    assert(record_texts(records@) =~= csv_rows(results@, texts@, 0));
    let mut i: usize = 0;
    while i < results.len()
        invariant
            i <= results.len(),
            results@.len() == texts@.len(),
            forall|k: int| 0 <= k < results@.len() ==> (#[trigger] results@[k]).started_at.valid(),
            record_texts(records@) == csv_rows(results@, texts@, i as int),
        decreases results.len() - i,
    {
        let ghost before = records@;
        let record = csv_record(&results[i], &texts[i]);
        records.push(record);
        assert(record_texts(records@) =~= record_texts(before).push(texts_of(record@)));
        i += 1;
    }
    records
}

/// An export has a record for every result behind its header, in their order.
pub proof fn law_every_result_exported(
    results: Seq<TestResult>,
    texts: Seq<MeasureTexts>,
    n: int,
)
    requires
        0 <= n,
    ensures
        csv_rows(results, texts, n).len() == n + 1,
        csv_rows(results, texts, n)[0] == csv_columns(),
        forall|i: int|
            0 < i <= n ==> #[trigger] csv_rows(results, texts, n)[i] == csv_values(
                results[i - 1]@,
                rfc3339_text(results[i - 1].started_at),
                texts[i - 1],
            ),
    decreases n,
{
    if n > 0 {
        law_every_result_exported(results, texts, n - 1);
    }
}

/// Every exported record has a field for each column.
pub proof fn law_record_fits_header(result: ResultView, started_at: Seq<char>, texts: MeasureTexts)
    ensures
        csv_values(result, started_at, texts).len() == csv_columns().len(),
{
}

/// Only stored results are listed, each in one line, so a table of results that are all stored
/// has the line of every one, in their order.
pub proof fn law_stored_results_all_listed(
    results: Seq<TestResult>,
    texts: Seq<MeasureTexts>,
    n: int,
)
    requires
        0 <= n <= results.len(),
        forall|i: int| 0 <= i < n ==> (#[trigger] results[i]).id is Some,
    ensures
        history_table(results, texts, n).len() == n,
        forall|i: int|
            0 <= i < n ==> #[trigger] history_table(results, texts, n)[i] == history_line(
                results[i].id->Some_0,
                results[i]@,
                rfc3339_text(results[i].started_at),
                texts[i],
            ),
    decreases n,
{
    if n > 0 {
        law_stored_results_all_listed(results, texts, n - 1);
        assert(results[n - 1].id is Some);
    }
}

/// Every line shows what it is given, whole and unchanged, behind or between words that do not
/// depend on it.
pub proof fn law_lines_show_what_they_are_given(a: Seq<char>, b: Seq<char>)
    ensures
        made_of(title_text(a), seq!["🏠 家庭网络速度测试 v"@, a]),
        made_of(server_text(a, None), seq!["📍 测试服务器: "@, a]),
        made_of(
            server_text(a, Some(b)),
            seq!["📍 测试服务器: "@, a, " (探测延迟: "@, b, "ms)"@],
        ),
        made_of(latency_text(a, b), seq!["✅ 延迟: "@, a, "  抖动: "@, b]),
        made_of(download_text(a), seq!["✅ 下载速度: "@, a]),
        made_of(upload_text(a), seq!["✅ 上传速度: "@, a]),
        made_of(export_text(a), seq!["导出完成: "@, a]),
{
    lemma_made_of_two("🏠 家庭网络速度测试 v"@, a);
    lemma_made_of_two("📍 测试服务器: "@, a);
    lemma_made_of_five("📍 测试服务器: "@, a, " (探测延迟: "@, b, "ms)"@);
    lemma_made_of_four("✅ 延迟: "@, a, "  抖动: "@, b);
    lemma_made_of_two("✅ 下载速度: "@, a);
    lemma_made_of_two("✅ 上传速度: "@, a);
    lemma_made_of_two("导出完成: "@, a);
}

/// The line of a quiet run holds, under their names, both numbers of the one measurement, or of a
/// full run the two speeds and the latency. A count of bytes is given in full.
pub proof fn law_quiet_line_names_its_numbers(texts: MeasureTexts, down: u64, up: u64)
    ensures
        made_of(
            pairs_line(TestUnit::All, texts, down, up),
            seq![
                "download_mbps="@,
                texts.download_mbps@,
                " upload_mbps="@,
                texts.upload_mbps@,
                " latency_ms="@,
                texts.latency_ms@,
            ],
        ),
        made_of(
            pairs_line(TestUnit::Latency, texts, down, up),
            seq!["latency_ms="@, texts.latency_ms@, " jitter_ms="@, texts.jitter_ms@],
        ),
        exists|bytes: Seq<char>|
            #![trigger digits_value(bytes)]
            all_digits(bytes) && digits_value(bytes) == down && made_of(
                pairs_line(TestUnit::Download, texts, down, up),
                seq!["download_mbps="@, texts.download_mbps@, " download_bytes="@, bytes],
            ),
        exists|bytes: Seq<char>|
            #![trigger digits_value(bytes)]
            all_digits(bytes) && digits_value(bytes) == up && made_of(
                pairs_line(TestUnit::Upload, texts, down, up),
                seq!["upload_mbps="@, texts.upload_mbps@, " upload_bytes="@, bytes],
            ),
{
    let rest = texts.download_mbps@ + " upload_mbps="@ + texts.upload_mbps@ + " latency_ms="@
        + texts.latency_ms@;
    lemma_made_of_five(
        texts.download_mbps@,
        " upload_mbps="@,
        texts.upload_mbps@,
        " latency_ms="@,
        texts.latency_ms@,
    );
    let parts = seq![
        texts.download_mbps@,
        " upload_mbps="@,
        texts.upload_mbps@,
        " latency_ms="@,
        texts.latency_ms@,
    ];
    lemma_made_of("download_mbps="@, rest, parts);
    assert("download_mbps="@ + rest =~= pairs_line(TestUnit::All, texts, down, up));
    assert(seq!["download_mbps="@] + parts =~= seq![
        "download_mbps="@,
        texts.download_mbps@,
        " upload_mbps="@,
        texts.upload_mbps@,
        " latency_ms="@,
        texts.latency_ms@,
    ]);
    lemma_made_of_four("latency_ms="@, texts.latency_ms@, " jitter_ms="@, texts.jitter_ms@);
    lemma_decimal_reads_back(down as nat);
    lemma_decimal_reads_back(up as nat);
    lemma_made_of_four(
        "download_mbps="@,
        texts.download_mbps@,
        " download_bytes="@,
        decimal(down as nat),
    );
    lemma_made_of_four("upload_mbps="@, texts.upload_mbps@, " upload_bytes="@, decimal(up as nat));
    assert(digits_value(decimal(down as nat)) == down);
    assert(digits_value(decimal(up as nat)) == up);
}

/// The table of a full run is those of the three units, one behind the other, and the table of a
/// unit has the numbers of its measurement and no others.
pub proof fn law_tables_of_units_make_up_the_whole(texts: MeasureTexts)
    ensures
        result_table(TestUnit::All, texts) == result_table(TestUnit::Latency, texts)
            + result_table(TestUnit::Download, texts) + result_table(TestUnit::Upload, texts),
        ({
            let latency = result_table(TestUnit::Latency, texts);
            let download = result_table(TestUnit::Download, texts);
            let upload = result_table(TestUnit::Upload, texts);
            &&& latency.len() == 2 && download.len() == 1 && upload.len() == 1
            &&& latency[0].metric == "延迟"@ && latency[0].value == texts.latency_ms@
            &&& latency[1].metric == "抖动"@ && latency[1].value == texts.jitter_ms@
            &&& latency[0].unit == "ms"@ && latency[1].unit == "ms"@
            &&& download[0].metric == "下载速度"@ && download[0].value == texts.download_mbps@
            &&& upload[0].metric == "上传速度"@ && upload[0].value == texts.upload_mbps@
            &&& download[0].unit == "Mbps"@ && upload[0].unit == "Mbps"@
        }),
{
    assert(result_table(TestUnit::All, texts) =~= result_table(TestUnit::Latency, texts)
        + result_table(TestUnit::Download, texts) + result_table(TestUnit::Upload, texts));
}

/// A run that is asked neither for JSON nor for quiet gives a page, with the version, the server
/// and the table of what it measured.
pub proof fn law_interactive_run_gives_a_page(
    report: RunReport,
    options: RuntimeOptions,
    result: TestResult,
    texts: MeasureTexts,
    version: Seq<char>,
)
    requires
        !options.json,
        !options.quiet,
        reports_run(report, options, result, texts, version),
    ensures
        report matches RunReport::Page(page) && {
            &&& made_of(page.title@, seq!["🏠 家庭网络速度测试 v"@, version])
            &&& made_of(page.server@, seq!["📍 测试服务器: "@, result.server_name@])
            &&& result_row_views(page.rows@) == result_table(options.unit, texts)
        },
{
    law_lines_show_what_they_are_given(version, version);
    law_lines_show_what_they_are_given(result.server_name@, version);
}

/// The line of a quiet run is made from the shown numbers and the counts of its result.
pub proof fn law_quiet_report_is_of_its_result(
    report: RunReport,
    options: RuntimeOptions,
    result: TestResult,
    texts: MeasureTexts,
    version: Seq<char>,
)
    requires
        options.quiet,
        !options.json,
        reports_run(report, options, result, texts, version),
    ensures
        report matches RunReport::Line(line) && line@ == pairs_line(
            options.unit,
            texts,
            result.measured.download_bytes,
            result.measured.upload_bytes,
        ),
{
}

/// A line of the table of servers shows the id, the name and the latency URL of its server, and
/// so servers that differ in one of these have different lines.
pub proof fn law_listed_server_is_shown(row: ServerRow, a: ServerView, b: ServerView)
    requires
        lists(row, a),
    ensures
        row.id@ == a.id,
        row.name@ == a.name,
        row.latency_url@ == a.latency_url,
        lists(row, b) <==> a.id == b.id && a.name == b.name && a.latency_url == b.latency_url,
{
}

/// A line of the table of probed servers names its server and has its numbers if it was measured,
/// and dashes and the reason otherwise.
pub proof fn law_probed_server_is_reported(
    row: ProbeRow,
    server: ServerView,
    outcome: Result<(String, String), Error>,
)
    requires
        reports(row, server, outcome),
    ensures
        row.server@ == server.name,
        outcome matches Ok(shown) ==> row.latency_ms@ == shown.0@ && row.jitter_ms@ == shown.1@
            && row.status@ == "ok"@,
        outcome matches Err(e) ==> row.latency_ms@ == "-"@ && row.jitter_ms@ == "-"@ && row.status@
            == e.text(),
{
}

/// A line of the table of stored results shows the number, the time, the name of the server and
/// the three quantities of its result, each in its place.
pub proof fn law_history_line_shows_its_result(
    id: i64,
    result: ResultView,
    started_at: Seq<char>,
    texts: MeasureTexts,
)
    ensures
        ({
            let line = history_line(id, result, started_at, texts);
            &&& line.id == id
            &&& line.started_at == started_at
            &&& line.server == result.server_name
            &&& line.latency_ms == texts.latency_ms@
            &&& line.download_mbps == texts.download_mbps@
            &&& line.upload_mbps == texts.upload_mbps@
        }),
{
}

/// A result that is not stored has no line, and leaves the lines of the others as they are.
pub proof fn law_unstored_results_are_not_listed(
    results: Seq<TestResult>,
    texts: Seq<MeasureTexts>,
    n: int,
)
    requires
        0 < n <= results.len(),
        results[n - 1].id is None,
    ensures
        history_table(results, texts, n) == history_table(results, texts, n - 1),
{
}

/// Every field of an exported record stands under the column of its name, whatever the other
/// fields are: texts as they are, numbers by numerals that read back as them, no number of a row
/// as 0, and no error as nothing.
pub proof fn law_fields_stand_under_their_columns(
    result: ResultView,
    started_at: Seq<char>,
    texts: MeasureTexts,
    k: int,
)
    requires
        0 <= k < csv_columns().len(),
    ensures
        ({
            let name = csv_columns()[k];
            let field = csv_values(result, started_at, texts)[k];
            &&& name == "id"@ ==> {
                let id = match result.id {
                    Some(id) => id as int,
                    None => 0,
                };
                if id >= 0 {
                    all_digits(field) && digits_value(field) == id
                } else {
                    field[0] == '-' && all_digits(field.skip(1)) && digits_value(field.skip(1))
                        == -id
                }
            }
            &&& name == "started_at"@ ==> field == started_at
            &&& name == "duration_seconds"@ ==> all_digits(field) && digits_value(field)
                == result.duration_seconds
            &&& name == "server_id"@ ==> field == result.server_id
            &&& name == "server_name"@ ==> field == result.server_name
            &&& name == "latency_ms"@ ==> field == texts.latency_ms@
            &&& name == "jitter_ms"@ ==> field == texts.jitter_ms@
            &&& name == "download_mbps"@ ==> field == texts.download_mbps@
            &&& name == "upload_mbps"@ ==> field == texts.upload_mbps@
            &&& name == "download_bytes"@ ==> all_digits(field) && digits_value(field)
                == result.measured.download_bytes
            &&& name == "upload_bytes"@ ==> all_digits(field) && digits_value(field)
                == result.measured.upload_bytes
            &&& name == "error"@ ==> (result.error matches Some(text) ==> field == text) && (
            result.error is None ==> field.len() == 0)
            &&& name == "app_version"@ ==> field == result.app_version
        }),
{
    lemma_columns_differ();
    lemma_decimal_reads_back(result.duration_seconds as nat);
    lemma_decimal_reads_back(result.measured.download_bytes as nat);
    lemma_decimal_reads_back(result.measured.upload_bytes as nat);
    match result.id {
        Some(id) => {
            law_signed_number_reads_back(id as int);
        },
        None => {
            law_signed_number_reads_back(0);
        },
    }
}

/// The exported columns are these thirteen, in this order.
pub proof fn law_columns_of_an_export(k: int)
    ensures
        csv_columns().len() == 13,
        k == 0 ==> csv_columns()[k] == "id"@,
        k == 1 ==> csv_columns()[k] == "started_at"@,
        k == 2 ==> csv_columns()[k] == "duration_seconds"@,
        k == 3 ==> csv_columns()[k] == "server_id"@,
        k == 4 ==> csv_columns()[k] == "server_name"@,
        k == 5 ==> csv_columns()[k] == "latency_ms"@,
        k == 6 ==> csv_columns()[k] == "jitter_ms"@,
        k == 7 ==> csv_columns()[k] == "download_mbps"@,
        k == 8 ==> csv_columns()[k] == "upload_mbps"@,
        k == 9 ==> csv_columns()[k] == "download_bytes"@,
        k == 10 ==> csv_columns()[k] == "upload_bytes"@,
        k == 11 ==> csv_columns()[k] == "error"@,
        k == 12 ==> csv_columns()[k] == "app_version"@,
{
}

/// The names of the columns differ from one another.
proof fn lemma_columns_differ()
    ensures
        csv_columns().no_duplicates(),
{
    reveal_strlit("id");
    reveal_strlit("started_at");
    reveal_strlit("duration_seconds");
    reveal_strlit("server_id");
    reveal_strlit("server_name");
    reveal_strlit("latency_ms");
    reveal_strlit("jitter_ms");
    reveal_strlit("download_mbps");
    reveal_strlit("upload_mbps");
    reveal_strlit("download_bytes");
    reveal_strlit("upload_bytes");
    reveal_strlit("error");
    reveal_strlit("app_version");
    let c = csv_columns();
    assert(c[0].len() == 2 && c[1].len() == 10 && c[2].len() == 16 && c[3].len() == 9);
    assert(c[4].len() == 11 && c[5].len() == 10 && c[6].len() == 9 && c[7].len() == 13);
    assert(c[8].len() == 11 && c[9].len() == 14 && c[10].len() == 12 && c[11].len() == 5);
    assert(c[12].len() == 11);
    assert(c[1][0] == 's' && c[5][0] == 'l');
    assert(c[3][0] == 's' && c[6][0] == 'j');
    assert(c[4][0] == 's' && c[8][0] == 'u' && c[12][0] == 'a');
}

/// Every configured server has its line in the table, in the order of the configuration, and
/// without any server there is no table.
pub proof fn law_every_server_is_listed(
    r: Option<Vec<ServerRow>>,
    servers: Seq<ServerView>,
    i: int,
)
    requires
        lists_all(r, servers),
        0 <= i < servers.len(),
    ensures
        r is Some,
        r->Some_0@.len() == servers.len(),
        r->Some_0@[i].id@ == servers[i].id,
        r->Some_0@[i].name@ == servers[i].name,
        r->Some_0@[i].latency_url@ == servers[i].latency_url,
        lists_all(None, Seq::empty()),
{
    assert(lists(r->Some_0@[i], servers[i]));
}

/// A listing that is asked for JSON is JSON, whether or not there are results; any other is a
/// notice exactly when there are none, and otherwise has the line of every stored result, in
/// their order.
pub proof fn law_listing_shows_all_results(
    report: HistoryReport,
    results: Seq<TestResult>,
    texts: Seq<MeasureTexts>,
    json: bool,
)
    requires
        reports_history(report, results, texts, json),
        forall|i: int| 0 <= i < results.len() ==> (#[trigger] results[i]).id is Some,
    ensures
        json <==> report is Json,
        !json && results.len() == 0 <==> report is Nothing,
        report matches HistoryReport::Table(rows) ==> {
            &&& rows@.len() == results.len()
            &&& forall|i: int|
                0 <= i < rows@.len() ==> (#[trigger] rows@[i])@ == (HistoryRowView {
                    id: results[i].id->Some_0,
                    started_at: rfc3339_text(results[i].started_at),
                    server: results[i].server_name@,
                    latency_ms: texts[i].latency_ms@,
                    download_mbps: texts[i].download_mbps@,
                    upload_mbps: texts[i].upload_mbps@,
                })
        },
{
    law_stored_results_all_listed(results, texts, results.len() as int);
    if let HistoryReport::Table(rows) = report {
        let views = history_row_views(rows@);
        assert(views.len() == rows@.len());
        assert forall|i: int| 0 <= i < rows@.len() implies (#[trigger] rows@[i])@ == (
        HistoryRowView {
            id: results[i].id->Some_0,
            started_at: rfc3339_text(results[i].started_at),
            server: results[i].server_name@,
            latency_ms: texts[i].latency_ms@,
            download_mbps: texts[i].download_mbps@,
            upload_mbps: texts[i].upload_mbps@,
        }) by {
            assert(views[i] == rows@[i]@);
            law_history_line_shows_its_result(
                results[i].id->Some_0,
                results[i]@,
                rfc3339_text(results[i].started_at),
                texts[i],
            );
        }
    }
}

/// Every probed server has its own line, in the order of the configuration, whatever became of
/// the others.
pub proof fn law_every_probe_is_reported(
    rows: Seq<ProbeRow>,
    servers: Seq<ServerView>,
    outcomes: Seq<Result<(String, String), Error>>,
    i: int,
)
    requires
        reports_all(rows, servers, outcomes),
        0 <= i < servers.len(),
    ensures
        rows.len() == servers.len(),
        rows[i].server@ == servers[i].name,
        rows[i].status@ == (match outcomes[i] {
            Ok(_) => "ok"@,
            Err(e) => e.text(),
        }),
        rows[i].latency_ms@ == (match outcomes[i] {
            Ok(shown) => shown.0@,
            Err(_) => "-"@,
        }),
        rows[i].jitter_ms@ == (match outcomes[i] {
            Ok(shown) => shown.1@,
            Err(_) => "-"@,
        }),
{
    assert(reports(rows[i], servers[i], outcomes[i]));
}

} // verus!
