use speed_test::color::{color_jitter, color_latency, color_speed, paint};
use speed_test::config::{AppConfig, Server};
use speed_test::error::Error;
use speed_test::latency::{
    probe_count, probe_latency_once, probe_reply, status_is_success, LatencyRun, ProbeReply,
};
use speed_test::net::{after_outcome, after_read, host_address, join_address, read_all};
use speed_test::reading::Reading;
use speed_test::select::{best_server, select_server, Selection};
use speed_test::transfer::{
    after_upload, compute_dynamic_cap, upload_body, upload_goes_on, worker_count, Chunk,
    DownloadStep, DownloadWorker,
};

fn reading(x: f64) -> Reading {
    Reading { bits: x.to_bits() }
}

fn answered(x: f64) -> ProbeReply {
    ProbeReply::Answered(reading(x))
}

#[test]
fn readings_compare_as_doubles() {
    let numbers = [
        0.0,
        -0.0,
        1.0,
        -1.0,
        0.1,
        99.99999999999999,
        100.0,
        100.00000000000001,
        f64::MIN_POSITIVE,
        5e-324,
        -5e-324,
        f64::MAX,
        f64::MIN,
        f64::INFINITY,
        f64::NEG_INFINITY,
        f64::NAN,
        -f64::NAN,
    ];
    for a in numbers {
        assert_eq!(reading(a).nan(), a.is_nan());
        for b in numbers {
            assert_eq!(reading(a).ge(&reading(b)), a >= b);
        }
    }
}

#[test]
fn paint_wraps_in_escapes() {
    assert_eq!(paint("x", "32"), "\x1b[32mx\x1b[0m");
    assert_eq!(paint("", ""), "\x1b[m\x1b[0m");
}

#[test]
fn speed_colours() {
    for (mbps, code) in [
        (250.0, "32"),
        (100.0, "32"),
        (99.99999999999999, "33"),
        (30.0, "33"),
        (29.999999999999996, "31"),
        (0.0, "31"),
        (-5.0, "31"),
        (f64::NAN, "31"),
        (f64::INFINITY, "32"),
    ] {
        let shown = format!("{mbps:.2}");
        assert_eq!(
            color_speed(reading(mbps), &shown),
            format!("\x1b[{code}m{mbps:.2} Mbps\x1b[0m")
        );
    }
}

#[test]
fn latency_colours() {
    for (ms, code) in [
        (0.0, "32"),
        (20.0, "32"),
        (20.000000000000004, "33"),
        (50.0, "33"),
        (50.00000000000001, "31"),
        (-0.0, "32"),
        (f64::NAN, "31"),
        (f64::INFINITY, "31"),
    ] {
        assert_eq!(
            color_latency(reading(ms), &format!("{ms:.2}")),
            format!("\x1b[{code}m{ms:.2} ms\x1b[0m")
        );
    }
}

#[test]
fn jitter_colours() {
    for (ms, code) in [
        (5.0, "32"),
        (5.000000000000001, "33"),
        (15.0, "33"),
        (15.000000000000002, "31"),
        (-3.0, "32"),
    ] {
        assert_eq!(
            color_jitter(reading(ms), &format!("{ms:.2}")),
            format!("\x1b[{code}m{ms:.2} ms\x1b[0m")
        );
    }
}

#[test]
fn statuses() {
    assert!(!status_is_success(199));
    assert!(status_is_success(200));
    assert!(status_is_success(204));
    assert!(status_is_success(299));
    assert!(!status_is_success(300));
    assert!(!status_is_success(404));
    assert_eq!(probe_reply(200, reading(1.0)), answered(1.0));
    assert_eq!(probe_reply(503, reading(1.0)), ProbeReply::Rejected);
    assert_eq!(probe_latency_once(200, reading(3.0)), Ok(reading(3.0)));
    assert_eq!(probe_latency_once(500, reading(3.0)), Err(Error::ProbeRejected));
}

fn play(count: usize, replies: &[ProbeReply]) -> (usize, Vec<Option<u64>>, LatencyRun) {
    let mut run = LatencyRun::new(count);
    let mut shown = Vec::new();
    let mut sent = 0;
    while run.wants_probe() {
        let moves = run.record(replies[sent]);
        shown.push(if moves && count <= 6 { Some(run.percent()) } else { None });
        sent += 1;
    }
    (sent, shown, run)
}

#[test]
fn probe_numbers_are_bounded() {
    for (configured, asked) in [(0, 0), (2, 2), (5, 5), (6, 6), (12, 6), (usize::MAX, 6)] {
        assert_eq!(probe_count(configured), asked);
    }
    for (count, times) in [(0, 3), (2, 3), (3, 3), (5, 5), (6, 6), (12, 12)] {
        let (sent, _, run) = play(count, &[answered(1.0); 12]);
        assert_eq!(sent, times);
        assert_eq!(run.finish().unwrap().ascending.len(), times);
    }
}

#[test]
fn progress_is_that_of_the_float_formula() {
    for times in 3..=6usize {
        let (_, shown, _) = play(times, &[answered(1.0); 6]);
        for (i, pct) in shown.iter().enumerate() {
            let float = (((i + 1) as f64 / times as f64) * 100.0).round() as u64;
            assert_eq!(*pct, Some(float.min(99)));
        }
    }
}

#[test]
fn many_probes_are_given_up_late() {
    let (sent, _, run) = play(12, &[ProbeReply::Failed; 12]);
    assert_eq!(sent, 10);
    assert_eq!(run.finish(), Err(Error::TooFewSamples));
    assert!(LatencyRun::new(usize::MAX).wants_probe());
}

#[test]
fn equal_samples_keep_their_order() {
    let (_, _, run) = play(4, &[0.0, 1.0, -0.0, 0.0].map(answered));
    let found = run.finish().unwrap();
    assert_eq!(found.ascending, [0.0, -0.0, 0.0, 1.0].map(reading).to_vec());
    assert_eq!(found.median, reading(0.0));
}

#[test]
fn samples_come_out_sorted_with_their_median() {
    let replies = [5.0, 3.5, 9.0, 3.25, 7.0, 4.0].map(answered);
    let (_, _, run) = play(6, &replies);
    let found = run.finish().unwrap();
    assert_eq!(found.ascending, [3.25, 3.5, 4.0, 5.0, 7.0, 9.0].map(reading).to_vec());
    assert_eq!(found.median, reading(5.0));
    let (_, _, run) = play(3, &[answered(2.0), answered(1.0), answered(2.0)]);
    assert_eq!(run.finish().unwrap().median, reading(2.0));
}

#[test]
fn hopeless_measurement_is_given_up() {
    let (sent, _, run) = play(6, &[ProbeReply::Failed; 6]);
    assert_eq!(sent, 4);
    assert_eq!(run.finish(), Err(Error::TooFewSamples));
    let (sent, _, run) = play(3, &[ProbeReply::Failed; 3]);
    assert_eq!(sent, 1);
    assert_eq!(run.finish(), Err(Error::TooFewSamples));
}

#[test]
fn rejected_probes_do_not_end_a_measurement() {
    let (sent, shown, run) = play(6, &[ProbeReply::Rejected; 6]);
    assert_eq!(sent, 6);
    assert_eq!(shown, vec![None; 6]);
    assert_eq!(run.finish(), Err(Error::TooFewSamples));
}

#[test]
fn three_answers_are_enough() {
    let replies = [
        ProbeReply::Failed,
        ProbeReply::Rejected,
        ProbeReply::Failed,
        answered(3.0),
        answered(1.0),
        answered(2.0),
    ];
    let (sent, shown, run) = play(6, &replies);
    assert_eq!(sent, 6);
    assert_eq!(shown, vec![Some(17), None, Some(50), Some(67), Some(83), Some(99)]);
    assert_eq!(run.finish().unwrap().median, reading(2.0));
}

#[test]
fn named_server_is_taken() {
    let cfg = AppConfig::default();
    assert_eq!(
        select_server(&cfg, Some("cloudflare")),
        Ok(Selection::Chosen(cfg.servers[2].clone()))
    );
    assert_eq!(
        select_server(&cfg, Some("Hetzner FSN1")),
        Ok(Selection::Chosen(cfg.servers[3].clone()))
    );
}

#[test]
fn first_match_is_taken() {
    let mut cfg = AppConfig::default();
    cfg.servers = vec![
        Server::new("a", "b", "1", "1", "1"),
        Server::new("b", "c", "2", "2", "2"),
    ];
    assert_eq!(
        select_server(&cfg, Some("b")),
        Ok(Selection::Chosen(Server::new("a", "b", "1", "1", "1")))
    );
}

#[test]
fn url_is_a_custom_server() {
    let cfg = AppConfig::default();
    for url in ["http://example.com/ping", "https://x", "http://"] {
        assert_eq!(
            select_server(&cfg, Some(url)),
            Ok(Selection::Chosen(Server::new("custom", "Custom Server", url, url, url)))
        );
    }
}

#[test]
fn unknown_server_is_an_error() {
    let cfg = AppConfig::default();
    for name in ["nowhere", "", "HTTP://x", "http:/x", "ftp://x"] {
        assert_eq!(
            select_server(&cfg, Some(name)),
            Err(Error::ServerNotFound(name.to_string()))
        );
    }
}

#[test]
fn selection_timeouts() {
    for (configured, timeout_secs) in [(0, 1), (1, 1), (2, 2), (3, 3), (15, 3)] {
        let mut cfg = AppConfig::default();
        cfg.test.timeout_seconds = configured;
        assert_eq!(select_server(&cfg, None), Ok(Selection::Probe { timeout_secs }));
    }
}

#[test]
fn fastest_probe_wins() {
    let s = |id: &str| Server::new(id, id, "", "", "");
    let probes = vec![
        None,
        Some((reading(12.5), s("a"))),
        Some((reading(9.0), s("b"))),
        None,
        Some((reading(9.0), s("c"))),
        Some((reading(30.0), s("d"))),
    ];
    assert_eq!(best_server(&probes), Ok((s("b"), reading(9.0))));
    assert_eq!(best_server(&vec![None, None]), Err(Error::AllProbesFailed));
    assert_eq!(best_server(&Vec::new()), Err(Error::AllProbesFailed));
}

#[test]
fn dynamic_caps() {
    assert_eq!(compute_dynamic_cap(2_000_000_000, 10, 1_000), 2_000_000_000);
    assert_eq!(compute_dynamic_cap(1_000_000_000, 10, 600), 1_000_000_000);
    assert_eq!(compute_dynamic_cap(2_000_000_000, 60, 1_000), 7_500_000_000);
    assert_eq!(compute_dynamic_cap(0, 0, 1_000), 0);
    assert_eq!(compute_dynamic_cap(0, u64::MAX, 1_000), u64::MAX / 8);
    assert_eq!(compute_dynamic_cap(u64::MAX, u64::MAX, 1_000), u64::MAX);
    for (base, secs, floor) in [(5, 7, 3), (1 << 40, 1 << 30, 1 << 20), (3, 1 << 62, 9)] {
        let expected: u64 = u64::saturating_mul(secs, floor).saturating_mul(1_000_000) / 8;
        assert_eq!(compute_dynamic_cap(base, secs, floor), expected.max(base));
    }
}

#[test]
fn workers() {
    assert_eq!(worker_count(0), 1);
    assert_eq!(worker_count(1), 1);
    assert_eq!(worker_count(16), 16);
}

#[test]
fn download_worker_steps() {
    let ready = DownloadWorker::Ready;
    let streaming = DownloadWorker::Streaming;
    assert_eq!(ready.next_step(false, 9, 10), DownloadStep::Request);
    assert_eq!(ready.next_step(false, 10, 10), DownloadStep::Stop);
    assert_eq!(ready.next_step(true, 0, 10), DownloadStep::Stop);
    assert_eq!(streaming.next_step(false, 9, 10), DownloadStep::ReadChunk);
    assert_eq!(streaming.next_step(false, 11, 10), DownloadStep::LeaveResponse);
    assert_eq!(streaming.next_step(true, 0, 10), DownloadStep::LeaveResponse);
    assert_eq!(DownloadWorker::Finished.next_step(false, 0, 10), DownloadStep::Stop);
    assert_eq!(DownloadWorker::after_request(true), streaming);
    assert_eq!(DownloadWorker::after_request(false), DownloadWorker::Finished);
    assert_eq!(DownloadWorker::after_leaving(), ready);
    assert_eq!(DownloadWorker::after_chunk(Chunk::Data(7)), (streaming, 7));
    assert_eq!(DownloadWorker::after_chunk(Chunk::End), (ready, 0));
    assert_eq!(DownloadWorker::after_chunk(Chunk::Failed), (ready, 0));
}

#[test]
fn crew_overshoots_by_less_than_a_chunk_each() {
    let (cap, chunk) = (100u64, 30u64);
    let mut total = 0u64;
    let mut workers = vec![DownloadWorker::Streaming; 4];
    loop {
        let told: Vec<bool> = workers
            .iter()
            .map(|w| w.next_step(false, total, cap) == DownloadStep::ReadChunk)
            .collect();
        if !told.contains(&true) {
            break;
        }
        for (w, reads) in workers.iter_mut().zip(told) {
            if reads {
                let (next, n) = DownloadWorker::after_chunk(Chunk::Data(chunk));
                *w = next;
                total += n;
            }
        }
    }
    assert_eq!(total, 120);
    assert!(total < cap + 4 * chunk);
}

#[test]
fn upload_worker_steps() {
    assert!(upload_goes_on(false, 9, 10));
    assert!(!upload_goes_on(false, 10, 10));
    assert!(!upload_goes_on(true, 0, 10));
    assert_eq!(after_upload(1024, Some(200)), Some(1024));
    assert_eq!(after_upload(1024, Some(413)), None);
    assert_eq!(after_upload(1024, None), None);
}

#[test]
fn upload_bodies_are_random_bytes() {
    assert_eq!(upload_body(0).len(), 1024);
    assert_eq!(upload_body(1024).len(), 1024);
    let a = upload_body(65536);
    let b = upload_body(65536);
    assert_eq!(a.len(), 65536);
    assert_ne!(a, vec![0u8; 65536]);
    assert_ne!(a, b);
}

#[test]
fn addresses_of_urls() {
    let address = |url: &str| host_address(url);
    assert_eq!(address("http://example.com/x"), Some("example.com:80".to_string()));
    assert_eq!(address("https://Example.com"), Some("example.com:443".to_string()));
    assert_eq!(address("http://127.0.0.1:8080/a?b"), Some("127.0.0.1:8080".to_string()));
    assert_eq!(address("http://[::1]/"), Some("[::1]:80".to_string()));
    assert_eq!(address("foo://example.com"), None);
    assert_eq!(address("data:text/plain,x"), None);
    assert_eq!(address("no url"), None);
}

#[test]
fn addresses_need_host_and_port() {
    let host = Some("h".to_string());
    assert_eq!(join_address(&Some((host.clone(), Some(0)))), Some("h:0".to_string()));
    assert_eq!(join_address(&Some((host, None))), None);
    assert_eq!(join_address(&Some((None, Some(80)))), None);
    assert_eq!(join_address(&None), None);
}

#[test]
fn reading_ends_at_zero() {
    assert_eq!(after_read(65536, 100), Some(65636));
    assert_eq!(after_read(7, 0), None);
    assert_eq!(after_read(0, usize::MAX), Some(usize::MAX));
    let all = |counts: &[usize]| {
        let reads: Vec<Result<usize, &str>> = counts.iter().map(|n| Ok(*n)).collect();
        read_all(&reads).unwrap()
    };
    assert_eq!(all(&[]), 0);
    assert_eq!(all(&[0]), 0);
    assert_eq!(all(&[65536, 65536, 100, 0]), 131172);
    assert_eq!(all(&[3, 4, 0, 9]), 7);
    assert_eq!(all(&[usize::MAX]), usize::MAX);
}

#[test]
fn failed_read_ends_reading() {
    assert_eq!(after_outcome(7, Ok::<usize, &str>(3)), Ok(Some(10)));
    assert_eq!(after_outcome(7, Ok::<usize, &str>(0)), Ok(None));
    assert_eq!(after_outcome(7, Err("broken")), Err("broken"));
    assert_eq!(read_all(&vec![Ok(3), Err("first"), Ok(4), Err("second"), Ok(0)]), Err(&"first"));
    assert_eq!(read_all(&vec![Ok(3), Ok(0), Err("late")]), Ok(3));
}
