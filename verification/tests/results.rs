use speed_test::config::{AppConfig, Server};
use speed_test::error::Error;
use speed_test::history::{
    export_request, history_request, insert_result, load_row, make_result, make_row,
    query_results, select_query, DEFAULT_HISTORY_LIMIT, INSERT_SQL, SCHEMA_SQL, SELECT_SQL,
};
use speed_test::reading::Reading;
use speed_test::report::{
    csv_fields, csv_header, csv_record, csv_table, download_line, export_line, history_row, latency_line,
    print_test_result, probe_row, probe_rows, quiet_line, result_rows, run_history, run_report, server_line,
    server_rows, title, upload_line, HistoryReport, RunReport, NO_HISTORY, NO_SERVERS_LISTED,
    RESULT_SAVED, RULE,
};
use speed_test::result::{MeasureTexts, Measured, TestResult};
use speed_test::run::{
    plan_test, resolve_options, Action, Outcome, RuntimeOptions, TestArgs, TestPlan, TestRun,
    TestUnit,
};
use speed_test::text::{begins_with, decimal_text, same_text, signed_decimal_text};
use speed_test::time::{parse_time, time_bound, TimeError, Timestamp};

fn reading(x: f64) -> Reading {
    Reading { bits: x.to_bits() }
}

fn texts() -> MeasureTexts {
    MeasureTexts {
        latency_ms: "12.34".to_string(),
        jitter_ms: "1.50".to_string(),
        download_mbps: "250.00".to_string(),
        upload_mbps: "40.25".to_string(),
    }
}

fn sample() -> TestResult {
    TestResult {
        id: None,
        started_at: Timestamp { secs: 1_772_323_200, nanos: 123_456_789 },
        duration_seconds: 10,
        server_id: "cloudflare".to_string(),
        server_name: "Cloudflare".to_string(),
        server_download_url: "https://d".to_string(),
        server_upload_url: "https://u".to_string(),
        server_latency_url: "https://l".to_string(),
        measured: Measured {
            latency_ms: reading(12.34),
            jitter_ms: reading(1.5),
            download_mbps: reading(250.0),
            upload_mbps: reading(40.25),
            download_bytes: 312_500_000,
            upload_bytes: u64::MAX,
        },
        error: Some("none, really".to_string()),
        app_version: "0.1.0".to_string(),
    }
}

#[test]
fn decimals() {
    for n in [0, 1, 9, 10, 99, 100, 1024, 65536, u64::MAX] {
        assert_eq!(decimal_text(n), n.to_string());
    }
    for n in [0, 1, -1, -10, i64::MAX, i64::MIN] {
        assert_eq!(signed_decimal_text(n), n.to_string());
    }
}

#[test]
fn texts_compare() {
    assert!(same_text("é", "é"));
    assert!(!same_text("a", "b"));
    assert!(begins_with("http://x", "http://"));
    assert!(begins_with("x", ""));
    assert!(!begins_with("http:/", "http://"));
    assert!(!begins_with("Http://x", "http://"));
}

#[test]
fn times_are_read() {
    let utc = parse_time(Some("2026-03-01T00:00:00+08:00")).unwrap();
    assert_eq!(utc, Some(Timestamp { secs: 1_772_294_400, nanos: 0 }));
    assert_eq!(
        parse_time(Some("1970-01-01T00:00:00.25Z")),
        Ok(Some(Timestamp { secs: 0, nanos: 250_000_000 }))
    );
    assert_eq!(
        parse_time(Some("2016-12-31T23:59:60Z")),
        Ok(Some(Timestamp { secs: 1_483_228_799, nanos: 1_000_000_000 }))
    );
    assert_eq!(parse_time(None), Ok(None));
}

#[test]
fn what_is_no_time_is_refused() {
    for text in [
        "",
        "2026-03-01",
        "yesterday, at about noon",
        "2026-13-01T00:00:00Z",
        "2026-02-30T00:00:00Z",
        "2026-03-01T00:00:00",
        "2026-03-01T00:00:00Zz",
        "2026-03-01T00:00:00+24:00",
    ] {
        let e = chrono::DateTime::parse_from_rfc3339(text).unwrap_err();
        let ours = parse_time(Some(text)).unwrap_err();
        assert_eq!(ours.message(), e.to_string());
    }
    assert_eq!(parse_time(Some("")), Err(Error::Time(TimeError::TooShort)));
    assert_eq!(
        parse_time(Some("2026-13-01T00:00:00Z")),
        Err(Error::Time(TimeError::OutOfRange))
    );
    assert_eq!(
        parse_time(Some("2026-03-01T00:00:00Zz")),
        Err(Error::Time(TimeError::TooLong))
    );
    assert_eq!(
        parse_time(Some("2026_03-01T00:00:00Z")),
        Err(Error::Time(TimeError::Invalid))
    );
}

#[test]
fn time_errors_are_told() {
    let t = |e: TimeError| Error::Time(e).message();
    assert_eq!(t(TimeError::OutOfRange), "input is out of range");
    assert_eq!(t(TimeError::Impossible), "no possible date and time matching input");
    assert_eq!(t(TimeError::NotEnough), "input is not enough for unique date and time");
    assert_eq!(t(TimeError::Invalid), "input contains invalid characters");
    assert_eq!(t(TimeError::TooShort), "premature end of input");
    assert_eq!(t(TimeError::TooLong), "trailing input");
    assert_eq!(t(TimeError::BadFormat), "bad or unsupported format string");
    let now = Timestamp { secs: 5, nanos: 6 };
    assert_eq!(time_bound(Ok(now)), Ok(Some(now)));
    assert_eq!(
        time_bound(Err(TimeError::TooLong)),
        Err(Error::Time(TimeError::TooLong))
    );
}

#[test]
fn timestamps_agree_with_the_calendar() {
    for (secs, nanos) in [
        (0, 0),
        (0, 999_999_999),
        (0, 1_000_000_000),
        (59, 1_999_999_999),
        (-1, 1_500_000_000),
        (-2, 1_500_000_000),
        (59, 2_000_000_000),
        (8_210_266_876_799, 0),
        (8_210_266_876_800, 0),
        (-8_334_601_228_800, 0),
        (-8_334_601_228_801, 0),
        (i64::MAX, 0),
        (i64::MIN, 0),
    ] {
        assert_eq!(
            Timestamp::new(secs, nanos).is_some(),
            chrono::DateTime::from_timestamp(secs, nanos).is_some()
        );
    }
}

fn options(args: &TestArgs) -> RuntimeOptions {
    resolve_options(&AppConfig::default().test, args)
}

#[test]
fn options_fall_back_to_the_configuration() {
    assert_eq!(
        options(&TestArgs::default()),
        RuntimeOptions {
            duration_seconds: 10,
            concurrency: 16,
            timeout_seconds: 15,
            no_save: false,
            json: false,
            quiet: false,
            unit: TestUnit::All,
        }
    );
    let args = TestArgs {
        duration: Some(15),
        concurrency: Some(0),
        timeout: Some(10),
        json: true,
        quiet: true,
        ..TestArgs::default()
    };
    let o = options(&args);
    assert_eq!((o.duration_seconds, o.concurrency, o.timeout_seconds), (15, 0, 10));
    assert!(o.json && o.quiet && !o.interactive());
}

#[test]
fn only_full_runs_are_saved() {
    assert!(options(&TestArgs::default()).saves());
    assert!(options(&TestArgs::default()).announces_saving());
    for unit in [TestUnit::Latency, TestUnit::Download, TestUnit::Upload] {
        assert!(!options(&TestArgs { unit, ..TestArgs::default() }).saves());
    }
    assert!(!options(&TestArgs { no_save: true, ..TestArgs::default() }).saves());
    let quiet = options(&TestArgs { quiet: true, ..TestArgs::default() });
    assert!(quiet.saves() && !quiet.announces_saving());
    let json = options(&TestArgs { json: true, ..TestArgs::default() });
    assert!(json.saves() && !json.announces_saving() && !json.interactive());
    let both = options(&TestArgs { json: true, quiet: true, ..TestArgs::default() });
    assert!(both.saves() && !both.announces_saving() && !both.interactive());
    let mut cfg = AppConfig::default();
    cfg.test.save_history = false;
    assert!(!resolve_options(&cfg.test, &TestArgs::default()).saves());
}

fn plan(args: &TestArgs) -> TestPlan {
    plan_test(&AppConfig::default(), args).unwrap()
}

#[test]
fn plans() {
    let p = plan(&TestArgs::default());
    assert_eq!((p.download_cap, p.upload_cap), (2_000_000_000, 1_000_000_000));
    assert_eq!((p.chunk_size_bytes, p.probes), (65536, 6));
    let p = plan(&TestArgs { duration: Some(60), ..TestArgs::default() });
    assert_eq!((p.download_cap, p.upload_cap), (7_500_000_000, 4_500_000_000));
    let mut cfg = AppConfig::default();
    cfg.servers.clear();
    assert_eq!(plan_test(&cfg, &TestArgs::default()), Err(Error::NoServers));
}

fn server() -> Server {
    Server::new("s", "S", "http://d", "http://u", "http://l")
}

#[test]
fn full_run() {
    let mut run = TestRun::begin(plan(&TestArgs::default()), server());
    assert_eq!(
        run.action(),
        Action::Latency { url: "http://l".to_string(), probes: 6, timeout_seconds: 15 }
    );
    run.record(Outcome::Latency { latency_ms: reading(9.0), jitter_ms: reading(1.0) });
    assert_eq!(
        run.action(),
        Action::Download {
            url: "http://d".to_string(),
            duration_seconds: 10,
            concurrency: 16,
            max_bytes: 2_000_000_000
        }
    );
    run.record(Outcome::Download { mbps: reading(200.0), bytes: 250 });
    assert_eq!(
        run.action(),
        Action::Upload {
            url: "http://u".to_string(),
            duration_seconds: 10,
            concurrency: 16,
            max_bytes: 1_000_000_000,
            chunk_size: 65536
        }
    );
    run.record(Outcome::Upload { mbps: reading(20.0), bytes: 25 });
    assert_eq!(run.action(), Action::Report);
    let started_at = Timestamp { secs: 7, nanos: 8 };
    assert_eq!(
        run.result(started_at, "0.1.0"),
        TestResult {
            id: None,
            started_at,
            duration_seconds: 10,
            server_id: "s".to_string(),
            server_name: "S".to_string(),
            server_download_url: "http://d".to_string(),
            server_upload_url: "http://u".to_string(),
            server_latency_url: "http://l".to_string(),
            measured: Measured {
                latency_ms: reading(9.0),
                jitter_ms: reading(1.0),
                download_mbps: reading(200.0),
                upload_mbps: reading(20.0),
                download_bytes: 250,
                upload_bytes: 25,
            },
            error: None,
            app_version: "0.1.0".to_string(),
        }
    );
}

#[test]
fn single_measurements() {
    let zero = reading(0.0);
    for unit in [TestUnit::Latency, TestUnit::Download, TestUnit::Upload] {
        let mut run =
            TestRun::begin(plan(&TestArgs { unit, ..TestArgs::default() }), server());
        let outcome = match run.action() {
            Action::Latency { .. } => {
                assert_eq!(unit, TestUnit::Latency);
                Outcome::Latency { latency_ms: reading(4.0), jitter_ms: reading(2.0) }
            }
            Action::Download { .. } => {
                assert_eq!(unit, TestUnit::Download);
                Outcome::Download { mbps: reading(3.0), bytes: 3 }
            }
            Action::Upload { .. } => {
                assert_eq!(unit, TestUnit::Upload);
                Outcome::Upload { mbps: reading(3.0), bytes: 3 }
            }
            Action::Report => panic!("nothing measured"),
        };
        run.record(outcome);
        assert_eq!(run.action(), Action::Report);
        let m = run.result(Timestamp { secs: 0, nanos: 0 }, "v").measured;
        assert_eq!(m.latency_ms == zero, unit != TestUnit::Latency);
        assert_eq!(m.download_bytes == 0, unit != TestUnit::Download);
        assert_eq!(m.upload_mbps == zero, unit != TestUnit::Upload);
    }
}

#[test]
fn stored_results_read_back() {
    let result = sample();
    let row = insert_result(&result);
    assert_eq!(row.started_at, "2026-03-01T00:00:00.123456789+00:00");
    assert_eq!(row.duration_seconds, 10);
    assert_eq!(row.download_bytes, 312_500_000);
    assert_eq!(row.upload_bytes, -1);
    let loaded = load_row(42, row).unwrap();
    assert_eq!(loaded, TestResult { id: Some(42), ..sample() });
}

#[test]
fn times_read_back_over_the_four_digit_years() {
    for (secs, nanos) in [
        (-62_167_219_200, 0),
        (-62_167_219_200, 1),
        (-1, 999_999_999),
        (0, 500_000_000),
        (1_483_228_799, 1_250_000_000),
        (951_782_400, 1_000),
        (253_402_300_799, 1_999_999_999),
    ] {
        let started_at = Timestamp::new(secs, nanos).unwrap();
        let row = insert_result(&TestResult { started_at, ..sample() });
        assert_eq!(load_row(1, row).unwrap().started_at, started_at);
    }
    let beyond = Timestamp::new(253_402_300_800, 0).unwrap();
    let row = insert_result(&TestResult { started_at: beyond, ..sample() });
    assert_eq!(row.started_at, "+10000-01-01T00:00:00+00:00");
    assert!(load_row(1, row).is_err());
}

#[test]
fn every_instant_can_be_written() {
    for secs in [-8_334_601_228_800, 8_210_266_876_799] {
        let started_at = Timestamp::new(secs, 0).unwrap();
        let row = insert_result(&TestResult { started_at, ..sample() });
        assert!(row.started_at.ends_with("+00:00"));
    }
}

#[test]
fn texts_of_times_sort_as_the_times() {
    let mut times = Vec::new();
    for secs in [-62_167_219_200, -1, 0, 1_483_228_799, 1_483_228_800, 253_402_300_799] {
        for nanos in [0, 1, 499_999_999, 500_000_000, 500_000_001, 500_001_000, 501_000_000] {
            times.push((secs, nanos));
        }
        if Timestamp::new(secs, 1_000_000_000).is_some() {
            times.push((secs, 1_000_000_000));
            times.push((secs, 1_500_000_000));
        }
    }
    let texts: Vec<String> = times
        .iter()
        .map(|(secs, nanos)| {
            let started_at = Timestamp::new(*secs, *nanos).unwrap();
            insert_result(&TestResult { started_at, ..sample() }).started_at
        })
        .collect();
    for (a, a_text) in times.iter().zip(&texts) {
        for (b, b_text) in times.iter().zip(&texts) {
            assert_eq!(a < b, a_text < b_text);
        }
    }
}

#[test]
fn rows_with_a_bad_time_are_refused() {
    let row = make_row(&sample(), "never".to_string());
    assert_eq!(load_row(1, row), Err(Error::Time(TimeError::TooShort)));
}

#[test]
fn rows_and_results() {
    let row = make_row(&sample(), "t".to_string());
    assert_eq!(row.started_at, "t");
    assert_eq!(row.server_latency_url, "https://l");
    let result = make_result(-3, row, Timestamp { secs: 1, nanos: 2 });
    assert_eq!(
        result,
        TestResult {
            id: Some(-3),
            started_at: Timestamp { secs: 1, nanos: 2 },
            ..sample()
        }
    );
}

#[test]
fn queries() {
    let all = select_query(usize::MAX, None, None);
    assert_eq!(all.sql, format!("{SELECT_SQL} ORDER BY started_at DESC"));
    assert!(all.bind.is_empty());
    let some = select_query(20, Some("a".to_string()), Some("b".to_string()));
    assert_eq!(
        some.sql,
        format!(
            "{SELECT_SQL} AND started_at >= ? AND started_at <= ? ORDER BY started_at DESC LIMIT 20"
        )
    );
    assert_eq!(some.bind, vec!["a", "b"]);
    let until = select_query(0, None, Some("b".to_string()));
    assert_eq!(
        until.sql,
        format!("{SELECT_SQL} AND started_at <= ? ORDER BY started_at DESC LIMIT 0")
    );
    assert_eq!(until.bind, vec!["b"]);
    for q in [all, some, until] {
        assert_eq!(q.sql.matches('?').count(), q.bind.len());
    }
}

#[test]
fn bounds_are_written_in_utc() {
    let q = history_request(
        50,
        Some("2026-03-01T00:00:00+08:00"),
        Some("2026-03-31T23:59:59+08:00"),
    )
    .unwrap();
    assert_eq!(q.bind, vec!["2026-02-28T16:00:00+00:00", "2026-03-31T15:59:59+00:00"]);
    assert!(q.sql.ends_with(" LIMIT 50"));
    let q = export_request(Some("2026-03-01T00:00:00Z"), None).unwrap();
    assert_eq!(q.bind, vec!["2026-03-01T00:00:00+00:00"]);
    assert!(q.sql.ends_with(" AND started_at >= ? ORDER BY started_at DESC"));
    let direct = query_results(3, Some(Timestamp { secs: 0, nanos: 0 }), None);
    assert_eq!(direct.bind, vec!["1970-01-01T00:00:00+00:00"]);
}

#[test]
fn bad_bounds_are_refused() {
    assert_eq!(
        history_request(1, Some("2026_03-01T00:00:00Z"), Some("")),
        Err(Error::Time(TimeError::Invalid))
    );
    assert_eq!(
        history_request(1, None, Some("")),
        Err(Error::Time(TimeError::TooShort))
    );
    assert_eq!(
        export_request(Some(""), None),
        Err(Error::Time(TimeError::TooShort))
    );
}

#[test]
fn statements_run_in_a_database() {
    let db = rusqlite::Connection::open_in_memory().unwrap();
    db.execute_batch(SCHEMA_SQL).unwrap();
    db.execute_batch(SCHEMA_SQL).unwrap();
    for secs in [10, 30, 20] {
        let started_at = Timestamp { secs, nanos: 0 };
        let row = insert_result(&TestResult { started_at, ..sample() });
        let f = |r: Reading| f64::from_bits(r.bits);
        let values: Vec<Box<dyn rusqlite::ToSql>> = vec![
            Box::new(row.started_at),
            Box::new(row.duration_seconds),
            Box::new(row.server_id),
            Box::new(row.server_name),
            Box::new(row.server_download_url),
            Box::new(row.server_upload_url),
            Box::new(row.server_latency_url),
            Box::new(f(row.latency_ms)),
            Box::new(f(row.jitter_ms)),
            Box::new(f(row.download_mbps)),
            Box::new(f(row.upload_mbps)),
            Box::new(row.download_bytes),
            Box::new(row.upload_bytes),
            Box::new(row.error),
            Box::new(row.app_version),
        ];
        db.execute(INSERT_SQL, rusqlite::params_from_iter(values)).unwrap();
    }
    let listed = |q: &speed_test::history::HistoryQuery| -> Vec<(i64, String)> {
        let mut stmt = db.prepare(&q.sql).unwrap();
        let rows = stmt
            .query_map(rusqlite::params_from_iter(q.bind.iter()), |row| {
                Ok((row.get(0)?, row.get(1)?))
            })
            .unwrap();
        rows.map(|r| r.unwrap()).collect()
    };
    let ids = |q| listed(&q).iter().map(|r| r.0).collect::<Vec<i64>>();
    assert_eq!(ids(query_results(usize::MAX, None, None)), vec![2, 3, 1]);
    assert_eq!(ids(query_results(2, None, None)), vec![2, 3]);
    let at = |secs| Some(Timestamp { secs, nanos: 0 });
    assert_eq!(ids(query_results(20, at(20), None)), vec![2, 3]);
    assert_eq!(ids(query_results(20, None, at(20))), vec![3, 1]);
    assert_eq!(ids(query_results(20, at(15), at(25))), vec![3]);
    assert_eq!(DEFAULT_HISTORY_LIMIT, 20);
}

#[test]
fn quiet_lines() {
    let t = texts();
    assert_eq!(
        quiet_line(TestUnit::All, &t, 1, 2),
        "download_mbps=250.00 upload_mbps=40.25 latency_ms=12.34"
    );
    assert_eq!(quiet_line(TestUnit::Latency, &t, 1, 2), "latency_ms=12.34 jitter_ms=1.50");
    assert_eq!(quiet_line(TestUnit::Download, &t, 1, 2), "download_mbps=250.00 download_bytes=1");
    assert_eq!(
        quiet_line(TestUnit::Upload, &t, 1, u64::MAX),
        "upload_mbps=40.25 upload_bytes=18446744073709551615"
    );
}

#[test]
fn result_tables() {
    let names = |unit| {
        result_rows(unit, &texts())
            .iter()
            .map(|r| format!("{} {} {}", r.metric, r.value, r.unit))
            .collect::<Vec<_>>()
    };
    assert_eq!(
        names(TestUnit::All),
        vec!["延迟 12.34 ms", "抖动 1.50 ms", "下载速度 250.00 Mbps", "上传速度 40.25 Mbps"]
    );
    assert_eq!(names(TestUnit::Latency), vec!["延迟 12.34 ms", "抖动 1.50 ms"]);
    assert_eq!(names(TestUnit::Download), vec!["下载速度 250.00 Mbps"]);
    assert_eq!(names(TestUnit::Upload), vec!["上传速度 40.25 Mbps"]);
}

#[test]
fn reports() {
    let report = |json, quiet| {
        let o = options(&TestArgs { json, quiet, ..TestArgs::default() });
        run_report(&o, &sample(), &texts(), "0.1.0")
    };
    assert_eq!(report(true, false), RunReport::Json);
    assert_eq!(report(true, true), RunReport::Json);
    assert_eq!(
        report(false, true),
        RunReport::Line("download_mbps=250.00 upload_mbps=40.25 latency_ms=12.34".to_string())
    );
    let page = print_test_result(&sample(), &texts(), TestUnit::All, "0.1.0");
    assert_eq!(page.title, "🏠 家庭网络速度测试 v0.1.0");
    assert_eq!(page.server, "📍 测试服务器: Cloudflare");
    assert_eq!(page.rows.len(), 4);
    assert_eq!(report(false, false), RunReport::Page(page));
}

#[test]
fn lines() {
    assert_eq!(title("1"), "🏠 家庭网络速度测试 v1");
    assert_eq!(server_line("S", None), "📍 测试服务器: S");
    assert_eq!(server_line("S", Some("9.99")), "📍 测试服务器: S (探测延迟: 9.99ms)");
    assert_eq!(latency_line("a", "b"), "✅ 延迟: a  抖动: b");
    assert_eq!(download_line("a"), "✅ 下载速度: a");
    assert_eq!(upload_line("a"), "✅ 上传速度: a");
    assert_eq!(export_line("./out/h.csv"), "导出完成: ./out/h.csv");
    assert_eq!(RULE.len(), 37);
    assert_eq!(NO_HISTORY, "暂无历史记录");
    assert_eq!(NO_SERVERS_LISTED, "没有可用服务器");
    assert_eq!(RESULT_SAVED, "测试结果已保存");
}

#[test]
fn server_tables() {
    let cfg = AppConfig::default();
    let rows = server_rows(&cfg).unwrap();
    assert_eq!(rows.len(), 4);
    assert_eq!(rows[2].id, "cloudflare");
    assert_eq!(rows[2].name, "Cloudflare");
    assert_eq!(rows[2].latency_url, "https://speed.cloudflare.com/__down?bytes=1000");
    let mut cfg = cfg;
    cfg.servers.clear();
    assert_eq!(server_rows(&cfg), None);
}

#[test]
fn probe_tables() {
    let ok = probe_row(&server(), &Ok(("9.00".to_string(), "0.50".to_string())));
    assert_eq!(
        (ok.server, ok.latency_ms, ok.jitter_ms, ok.status),
        ("S".to_string(), "9.00".to_string(), "0.50".to_string(), "ok".to_string())
    );
    let failed = probe_row(&server(), &Err(Error::TooFewSamples));
    assert_eq!(
        (failed.server, failed.latency_ms, failed.jitter_ms, failed.status),
        ("S".to_string(), "-".to_string(), "-".to_string(), "延迟采样不足".to_string())
    );
}

#[test]
fn every_probed_server_has_its_line() {
    let cfg = AppConfig::default();
    let ok = || Ok(("9.00".to_string(), "0.50".to_string()));
    let outcomes = vec![Err(Error::TooFewSamples), ok(), Err(Error::TooFewSamples), ok()];
    let rows = probe_rows(&cfg, &outcomes);
    assert_eq!(
        rows.iter().map(|r| format!("{} {}", r.server, r.latency_ms)).collect::<Vec<_>>(),
        vec!["ZJU Speedtest IPv4 -", "ZJU Speedtest IPv6 9.00", "Cloudflare -", "Hetzner FSN1 9.00"]
    );
    assert_eq!(rows[2].status, "延迟采样不足");
    let mut none = AppConfig::default();
    none.servers.clear();
    assert_eq!(probe_rows(&none, &vec![]), vec![]);
}

#[test]
fn history_tables() {
    let results = vec![
        TestResult { id: Some(7), ..sample() },
        sample(),
        TestResult { id: Some(5), ..sample() },
    ];
    let shown = vec![texts(), texts(), texts()];
    assert_eq!(run_history(&results, &shown, true), HistoryReport::Json);
    assert_eq!(run_history(&vec![], &vec![], true), HistoryReport::Json);
    assert_eq!(run_history(&vec![], &vec![], false), HistoryReport::Nothing);
    match run_history(&results, &shown, false) {
        HistoryReport::Table(rows) => {
            assert_eq!(rows.iter().map(|r| r.id).collect::<Vec<_>>(), vec![7, 5]);
            assert_eq!(rows[0].started_at, "2026-03-01T00:00:00.123456789+00:00");
            assert_eq!(rows[0].server, "Cloudflare");
            assert_eq!(rows[0].latency_ms, "12.34");
            assert_eq!(rows[0].download_mbps, "250.00");
            assert_eq!(rows[0].upload_mbps, "40.25");
        }
        other => panic!("{other:?}"),
    }
    assert_eq!(history_row(&sample(), "t".to_string(), &texts()), None);
}

#[test]
fn csv_export() {
    assert_eq!(
        csv_header().join(","),
        "id,started_at,duration_seconds,server_id,server_name,latency_ms,jitter_ms,\
         download_mbps,upload_mbps,download_bytes,upload_bytes,error,app_version"
    );
    let record = csv_record(&TestResult { id: Some(7), ..sample() }, &texts());
    assert_eq!(
        record.join("|"),
        "7|2026-03-01T00:00:00.123456789+00:00|10|cloudflare|Cloudflare|12.34|1.50|\
         250.00|40.25|312500000|18446744073709551615|none, really|0.1.0"
    );
    assert_eq!(record.len(), csv_header().len());
    let two = vec![TestResult { id: Some(7), ..sample() }, sample()];
    let table = csv_table(&two, &vec![texts(), texts()]);
    assert_eq!(table.len(), 3);
    assert_eq!(table[0], csv_header());
    assert_eq!(table[1], record);
    assert_eq!(table[2][0], "0");
    assert_eq!(csv_table(&vec![], &vec![]), vec![csv_header()]);
    let bare = TestResult { error: None, ..sample() };
    let fields = csv_fields(&bare, "t".to_string(), &texts());
    assert_eq!(fields[0], "0");
    assert_eq!(fields[1], "t");
    assert_eq!(fields[11], "");
}
