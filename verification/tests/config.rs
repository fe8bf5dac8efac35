use speed_test::config::{
    load_or_init_config, merge_missing_default_servers, upgrade_legacy_test_defaults, AppConfig,
    Server,
};
use speed_test::error::Error;
use speed_test::number::NumberError;
use speed_test::settings::{
    find_key, get_config_value, run_config, set_config_value, ConfigAction, ConfigKey, ConfigReply,
};

const KEYS: [&str; 8] = [
    "test.duration_seconds",
    "test.concurrency",
    "test.timeout_seconds",
    "test.chunk_size_bytes",
    "test.max_download_bytes",
    "test.max_upload_bytes",
    "test.save_history",
    "test.latency_probe_count",
];

fn own_server(id: &str) -> Server {
    Server::new(id, "Mine", "http://d", "http://u", "http://l")
}

fn ids(cfg: &AppConfig) -> Vec<&str> {
    cfg.servers.iter().map(|s| s.id.as_str()).collect()
}

#[test]
fn default_parameters() {
    let cfg = AppConfig::default();
    assert_eq!(cfg.version, 1);
    assert_eq!(cfg.test.duration_seconds, 10);
    assert_eq!(cfg.test.concurrency, 16);
    assert_eq!(cfg.test.timeout_seconds, 15);
    assert_eq!(cfg.test.chunk_size_bytes, 65536);
    assert_eq!(cfg.test.max_download_bytes, 2_000_000_000);
    assert_eq!(cfg.test.max_upload_bytes, 1_000_000_000);
    assert!(cfg.test.save_history);
    assert_eq!(cfg.test.latency_probe_count, 12);
}

#[test]
fn default_server_list() {
    let cfg = AppConfig::default();
    assert_eq!(ids(&cfg), vec!["zju-ipv4", "zju-ipv6", "cloudflare", "fsn1-hetzner"]);
    assert_eq!(cfg.servers[0].name, "ZJU Speedtest IPv4");
    assert_eq!(cfg.servers[1].upload_url, "http://speedtest.zju6.edu.cn/empty.php");
    assert_eq!(
        cfg.servers[2].download_url,
        "https://speed.cloudflare.com/__down?bytes=25000000"
    );
    assert_eq!(cfg.servers[3].latency_url, "https://httpbin.org/get");
}

#[test]
fn merge_adds_only_what_is_missing() {
    let mut cfg = AppConfig::default();
    cfg.servers = vec![own_server("mine"), own_server("cloudflare")];
    assert!(merge_missing_default_servers(&mut cfg));
    assert_eq!(ids(&cfg), vec!["mine", "cloudflare", "zju-ipv4", "zju-ipv6", "fsn1-hetzner"]);
    assert_eq!(cfg.servers[1].name, "Mine");
    assert!(!merge_missing_default_servers(&mut cfg));
    assert_eq!(cfg.servers.len(), 5);
}

#[test]
fn merge_into_nothing() {
    let mut cfg = AppConfig::default();
    cfg.servers = Vec::new();
    assert!(merge_missing_default_servers(&mut cfg));
    assert_eq!(cfg, AppConfig::default());
}

#[test]
fn merge_keeps_duplicates_of_the_user() {
    let mut cfg = AppConfig::default();
    cfg.servers.push(own_server("zju-ipv4"));
    assert!(!merge_missing_default_servers(&mut cfg));
    assert_eq!(cfg.servers.len(), 5);
}

#[test]
fn legacy_concurrency_is_upgraded() {
    for (before, after, changed) in
        [(4, 16, true), (8, 16, true), (16, 16, false), (5, 5, false), (0, 0, false)]
    {
        let mut cfg = AppConfig::default();
        cfg.test.concurrency = before;
        assert_eq!(upgrade_legacy_test_defaults(&mut cfg), changed);
        assert_eq!(cfg.test.concurrency, after);
    }
}

#[test]
fn first_start_writes_the_defaults() {
    let (cfg, write) = load_or_init_config(None);
    assert!(write);
    assert_eq!(cfg, AppConfig::default());
}

#[test]
fn loading_twice_changes_nothing_more() {
    let mut old = AppConfig::default();
    old.test.concurrency = 8;
    old.servers = vec![own_server("mine")];
    let (once, write) = load_or_init_config(Some(old));
    assert!(write);
    assert_eq!(once.test.concurrency, 16);
    assert_eq!(ids(&once), vec!["mine", "zju-ipv4", "zju-ipv6", "cloudflare", "fsn1-hetzner"]);
    let (twice, write) = load_or_init_config(Some(once));
    assert!(!write);
    assert_eq!(twice.servers.len(), 5);
}

#[test]
fn ids_stay_distinct() {
    let mut old = AppConfig::default();
    old.servers = vec![own_server("mine"), own_server("fsn1-hetzner"), own_server("zju-ipv6")];
    let (cfg, _) = load_or_init_config(Some(old));
    let mut seen = ids(&cfg);
    assert_eq!(seen, vec!["mine", "fsn1-hetzner", "zju-ipv6", "zju-ipv4", "cloudflare"]);
    seen.sort();
    seen.dedup();
    assert_eq!(seen.len(), cfg.servers.len());
}

#[test]
fn current_config_is_not_written() {
    let (cfg, write) = load_or_init_config(Some(AppConfig::default()));
    assert!(!write);
    assert_eq!(cfg, AppConfig::default());
}

#[test]
fn every_key_is_readable() {
    let cfg = AppConfig::default();
    let values: Vec<String> =
        KEYS.iter().map(|k| get_config_value(&cfg, k).unwrap()).collect();
    assert_eq!(
        values,
        vec!["10", "16", "15", "65536", "2000000000", "1000000000", "true", "12"]
    );
    assert_eq!(get_config_value(&cfg, "test.unknown"), None);
    assert_eq!(get_config_value(&cfg, ""), None);
    assert_eq!(find_key("test.save_history"), Some(ConfigKey::SaveHistory));
}

#[test]
fn set_then_get() {
    let mut cfg = AppConfig::default();
    for key in KEYS {
        let value = if key == "test.save_history" { "false" } else { "15" };
        assert_eq!(set_config_value(&mut cfg, key, value), Ok(()));
        assert_eq!(get_config_value(&cfg, key), Some(value.to_string()));
    }
    assert_eq!(cfg.servers, AppConfig::default().servers);
}

#[test]
fn set_leaves_other_settings() {
    let mut cfg = AppConfig::default();
    assert_eq!(set_config_value(&mut cfg, "test.duration_seconds", "15"), Ok(()));
    let mut expected = AppConfig::default();
    expected.test.duration_seconds = 15;
    assert_eq!(cfg, expected);
}

#[test]
fn set_to_the_shown_value_changes_nothing() {
    let mut cfg = AppConfig::default();
    for key in KEYS {
        let shown = get_config_value(&cfg, key).unwrap();
        assert_eq!(set_config_value(&mut cfg, key, &shown), Ok(()));
    }
    assert_eq!(cfg, AppConfig::default());
}

#[test]
fn set_reads_numbers_as_rust_does() {
    for text in [
        "0", "7", "+7", "007", "", "+", "-", "-1", " 7", "7 ", "1_000", "0x10", "١", "1.0",
        "18446744073709551615", "18446744073709551616", "99999999999999999999999", "++1", "1+",
        "+18446744073709551615",
    ] {
        let mut cfg = AppConfig::default();
        let r = set_config_value(&mut cfg, "test.max_upload_bytes", text);
        match text.parse::<u64>() {
            Ok(n) => {
                assert_eq!(r, Ok(()));
                assert_eq!(cfg.test.max_upload_bytes, n);
            }
            Err(e) => {
                assert_eq!(r.unwrap_err().message(), e.to_string());
                assert_eq!(cfg, AppConfig::default());
            }
        }
        let mut cfg = AppConfig::default();
        let r = set_config_value(&mut cfg, "test.chunk_size_bytes", text);
        match text.parse::<usize>() {
            Ok(n) => {
                assert_eq!(r, Ok(()));
                assert_eq!(cfg.test.chunk_size_bytes, n);
            }
            Err(e) => assert_eq!(r.unwrap_err().message(), e.to_string()),
        }
    }
}

#[test]
fn set_errors() {
    let mut cfg = AppConfig::default();
    assert_eq!(
        set_config_value(&mut cfg, "test.concurrency", ""),
        Err(Error::Number(NumberError::Empty))
    );
    assert_eq!(
        set_config_value(&mut cfg, "test.concurrency", "many"),
        Err(Error::Number(NumberError::InvalidDigit))
    );
    assert_eq!(
        set_config_value(&mut cfg, "test.concurrency", "99999999999999999999"),
        Err(Error::Number(NumberError::TooLarge))
    );
    assert_eq!(set_config_value(&mut cfg, "test.save_history", "True"), Err(Error::Flag));
    assert_eq!(
        set_config_value(&mut cfg, "servers", "1"),
        Err(Error::UnknownKey("servers".to_string()))
    );
    assert_eq!(cfg, AppConfig::default());
}

#[test]
fn error_messages() {
    assert_eq!(Error::UnknownKey("a.b".to_string()).message(), "未知配置项: a.b");
    assert_eq!(Error::Flag.message(), "maybe".parse::<bool>().unwrap_err().to_string());
    assert_eq!(Error::NoServers.message(), "服务器列表为空，请先配置 servers");
    assert_eq!(Error::ServerNotFound("x".to_string()).message(), "未找到服务器: x");
    assert_eq!(Error::AllProbesFailed.message(), "所有服务器探测失败，请检查网络或更新配置");
    assert_eq!(Error::ProbeRejected.message(), "探测响应状态异常");
    assert_eq!(Error::TooFewSamples.message(), "延迟采样不足");
}

#[test]
fn config_command() {
    let mut cfg = AppConfig::default();
    assert_eq!(run_config(&mut cfg, &ConfigAction::Show), Ok(ConfigReply::Whole));
    let get = ConfigAction::Get { key: "test.concurrency".to_string() };
    assert_eq!(run_config(&mut cfg, &get), Ok(ConfigReply::Value("16".to_string())));
    let unknown = ConfigAction::Get { key: "nope".to_string() };
    assert_eq!(
        run_config(&mut cfg, &unknown),
        Err(Error::UnknownKey("nope".to_string()))
    );
    let set = ConfigAction::Assign {
        key: "test.concurrency".to_string(),
        value: "+32".to_string(),
    };
    assert_eq!(
        run_config(&mut cfg, &set),
        Ok(ConfigReply::Saved("已更新: test.concurrency=+32".to_string()))
    );
    assert_eq!(run_config(&mut cfg, &get), Ok(ConfigReply::Value("32".to_string())));
    let bad = ConfigAction::Assign { key: "test.save_history".to_string(), value: "1".to_string() };
    assert_eq!(run_config(&mut cfg, &bad), Err(Error::Flag));
}
