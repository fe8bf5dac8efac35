//! The configuration: its built-in defaults and how an older file is brought up to date.

use vstd::prelude::*;

verus! {

/// A server to measure against.
#[derive(Debug, PartialEq, Eq)]
pub struct Server {
    pub id: String,
    pub name: String,
    pub download_url: String,
    pub upload_url: String,
    pub latency_url: String,
}

/// The texts of a [`Server`].
#[verifier::ext_equal]
pub struct ServerView {
    pub id: Seq<char>,
    pub name: Seq<char>,
    pub download_url: Seq<char>,
    pub upload_url: Seq<char>,
    pub latency_url: Seq<char>,
}

impl View for Server {
    type V = ServerView;

    open spec fn view(&self) -> ServerView {
        ServerView {
            id: self.id@,
            name: self.name@,
            download_url: self.download_url@,
            upload_url: self.upload_url@,
            latency_url: self.latency_url@,
        }
    }
}

impl Clone for Server {
    fn clone(&self) -> (r: Self)
        ensures
            r@ == self@,
    {
        Server {
            id: self.id.clone(),
            name: self.name.clone(),
            download_url: self.download_url.clone(),
            upload_url: self.upload_url.clone(),
            latency_url: self.latency_url.clone(),
        }
    }
}

impl Server {
    /// A server made of the given texts.
    pub fn new(
        id: &str,
        name: &str,
        download_url: &str,
        upload_url: &str,
        latency_url: &str,
    ) -> (r: Self)
        ensures
            r@ == (ServerView {
                id: id@,
                name: name@,
                download_url: download_url@,
                upload_url: upload_url@,
                latency_url: latency_url@,
            }),
    {
        Server {
            id: id.to_owned(),
            name: name.to_owned(),
            download_url: download_url.to_owned(),
            upload_url: upload_url.to_owned(),
            latency_url: latency_url.to_owned(),
        }
    }
}

/// The parameters of a measurement.
#[derive(Debug, Clone, Copy, PartialEq, Eq)]
pub struct TestConfig {
    pub duration_seconds: u64,
    pub concurrency: usize,
    pub timeout_seconds: u64,
    pub chunk_size_bytes: usize,
    pub max_download_bytes: u64,
    pub max_upload_bytes: u64,
    pub save_history: bool,
    pub latency_probe_count: usize,
}

/// The whole configuration.
#[derive(Debug, PartialEq, Eq)]
pub struct AppConfig {
    pub version: u32,
    pub test: TestConfig,
    pub servers: Vec<Server>,
}

/// What an [`AppConfig`] holds.
#[verifier::ext_equal]
pub struct ConfigView {
    pub version: u32,
    pub test: TestConfig,
    pub servers: Seq<ServerView>,
}

/// The texts of each server of a list.
pub open spec fn server_views(servers: Seq<Server>) -> Seq<ServerView> {
    servers.map_values(|s: Server| s@)
}

impl View for AppConfig {
    type V = ConfigView;

    open spec fn view(&self) -> ConfigView {
        ConfigView {
            version: self.version,
            test: self.test,
            servers: server_views(self.servers@),
        }
    }
}

/// The built-in measurement parameters.
pub open spec fn default_test() -> TestConfig {
    TestConfig {
        duration_seconds: 10,
        concurrency: 16,
        timeout_seconds: 15,
        chunk_size_bytes: 65536,
        max_download_bytes: 2_000_000_000,
        max_upload_bytes: 1_000_000_000,
        save_history: true,
        latency_probe_count: 12,
    }
}

/// The built-in servers, in order.
pub open spec fn default_servers() -> Seq<ServerView> {
    seq![
        ServerView {
            id: "zju-ipv4"@,
            name: "ZJU Speedtest IPv4"@,
            download_url: "http://speedtest.zju.edu.cn/garbage.php"@,
            upload_url: "http://speedtest.zju.edu.cn/empty.php"@,
            latency_url: "http://speedtest.zju.edu.cn/empty.php"@,
        },
        ServerView {
            id: "zju-ipv6"@,
            name: "ZJU Speedtest IPv6"@,
            download_url: "http://speedtest.zju6.edu.cn/garbage.php"@,
            upload_url: "http://speedtest.zju6.edu.cn/empty.php"@,
            latency_url: "http://speedtest.zju6.edu.cn/empty.php"@,
        },
        ServerView {
            id: "cloudflare"@,
            name: "Cloudflare"@,
            download_url: "https://speed.cloudflare.com/__down?bytes=25000000"@,
            upload_url: "https://speed.cloudflare.com/__up"@,
            latency_url: "https://speed.cloudflare.com/__down?bytes=1000"@,
        },
        ServerView {
            id: "fsn1-hetzner"@,
            name: "Hetzner FSN1"@,
            download_url: "https://speed.hetzner.de/100MB.bin"@,
            upload_url: "https://httpbin.org/post"@,
            latency_url: "https://httpbin.org/get"@,
        },
    ]
}

/// The built-in configuration.
pub open spec fn default_config() -> ConfigView {
    ConfigView { version: 1, test: default_test(), servers: default_servers() }
}

fn built_in_servers() -> (r: Vec<Server>)
    ensures
        server_views(r@) == default_servers(),
{
    let mut servers: Vec<Server> = Vec::new();
    servers.push(
        Server::new(
            "zju-ipv4",
            "ZJU Speedtest IPv4",
            "http://speedtest.zju.edu.cn/garbage.php",
            "http://speedtest.zju.edu.cn/empty.php",
            "http://speedtest.zju.edu.cn/empty.php",
        ),
    );
    servers.push(
        Server::new(
            "zju-ipv6",
            "ZJU Speedtest IPv6",
            "http://speedtest.zju6.edu.cn/garbage.php",
            "http://speedtest.zju6.edu.cn/empty.php",
            "http://speedtest.zju6.edu.cn/empty.php",
        ),
    );
    servers.push(
        Server::new(
            "cloudflare",
            "Cloudflare",
            "https://speed.cloudflare.com/__down?bytes=25000000",
            "https://speed.cloudflare.com/__up",
            "https://speed.cloudflare.com/__down?bytes=1000",
        ),
    );
    servers.push(
        Server::new(
            "fsn1-hetzner",
            "Hetzner FSN1",
            "https://speed.hetzner.de/100MB.bin",
            "https://httpbin.org/post",
            "https://httpbin.org/get",
        ),
    );
    assert(server_views(servers@) =~= default_servers());
    servers
}

impl Default for AppConfig {
    fn default() -> (r: Self)
        ensures
            r@ == default_config(),
    {
        AppConfig {
            version: 1,
            test: TestConfig {
                duration_seconds: 10,
                concurrency: 16,
                timeout_seconds: 15,
                chunk_size_bytes: 64 * 1024,
                max_download_bytes: 2_000_000_000,
                max_upload_bytes: 1_000_000_000,
                save_history: true,
                latency_probe_count: 12,
            },
            servers: built_in_servers(),
        }
    }
}

/// Whether one of `servers` has this id.
pub open spec fn has_id(servers: Seq<ServerView>, id: Seq<char>) -> bool {
    exists|i: int| 0 <= i < servers.len() && #[trigger] servers[i].id == id
}

/// Says of a server whether none of `servers` has its id.
pub open spec fn absent_from(servers: Seq<ServerView>) -> spec_fn(ServerView) -> bool {
    |d: ServerView| !has_id(servers, d.id)
}

/// The built-in servers whose id none of `servers` has, in their built-in order.
pub open spec fn missing_servers(servers: Seq<ServerView>) -> Seq<ServerView> {
    default_servers().filter(absent_from(servers))
}

/// The configuration with the missing built-in servers added behind its own.
pub open spec fn merged(cfg: ConfigView) -> ConfigView {
    ConfigView { servers: cfg.servers + missing_servers(cfg.servers), ..cfg }
}

/// The ids of the built-in servers differ from one another.
pub proof fn lemma_default_ids_distinct()
    ensures
        forall|i: int, j: int|
            0 <= i < j < default_servers().len() ==> default_servers()[i].id
                != default_servers()[j].id,
{
    reveal_strlit("zju-ipv4");
    reveal_strlit("zju-ipv6");
    reveal_strlit("cloudflare");
    reveal_strlit("fsn1-hetzner");
    assert("zju-ipv4"@[7] != "zju-ipv6"@[7]);
    assert("zju-ipv4"@.len() == 8 && "zju-ipv6"@.len() == 8);
    assert("cloudflare"@.len() == 10);
    assert("fsn1-hetzner"@.len() == 12);
}

/// Whether `servers` has an entry with this id.
fn contains_id(servers: &Vec<Server>, id: &String) -> (r: bool)
    ensures
        r == has_id(server_views(servers@), id@),
{
    let mut i: usize = 0;
    while i < servers.len()
        invariant
            i <= servers.len(),
            forall|k: int| 0 <= k < i ==> #[trigger] server_views(servers@)[k].id != id@,
        decreases servers.len() - i,
    {
        if servers[i].id == *id {
            assert(server_views(servers@)[i as int].id == id@);
            return true;
        }
        i += 1;
    }
    false
}

/// Adds the built-in servers that the configuration lacks, and says whether there were any.
pub fn merge_missing_default_servers(cfg: &mut AppConfig) -> (changed: bool)
    ensures
        final(cfg)@ == merged(old(cfg)@),
        changed == (missing_servers(old(cfg)@.servers).len() > 0),
{
    let ghost before = cfg@.servers;
    let ghost wanted = absent_from(before);
    let defaults = built_in_servers();
    let mut changed = false;
    let mut i: usize = 0;
    proof {
        assert(default_servers().take(0).filter(wanted) =~= Seq::<ServerView>::empty()) by {
            reveal(Seq::filter);
        }
        assert(cfg@.servers =~= before + default_servers().take(0).filter(wanted));
    }
    while i < defaults.len()
        invariant
            i <= defaults.len(),
            server_views(defaults@) == default_servers(),
            wanted == absent_from(before),
            cfg@.version == old(cfg)@.version,
            cfg@.test == old(cfg)@.test,
            cfg@.servers == before + default_servers().take(i as int).filter(wanted),
            changed == (default_servers().take(i as int).filter(wanted).len() > 0),
        decreases defaults.len() - i,
    {
        let ghost current = cfg@.servers;
        let ghost added = default_servers().take(i as int).filter(wanted);
        let ghost d = default_servers()[i as int];
        proof {
            assert(d == server_views(defaults@)[i as int]);
            assert(default_servers().take(i + 1).drop_last() =~= default_servers().take(i as int));
            lemma_has_id_after_merge(before, i as int);
            reveal(Seq::filter);
        }
        if contains_id(&cfg.servers, &defaults[i].id) {
        } else {
            let server = defaults[i].clone();
            cfg.servers.push(server);
            assert(cfg@.servers =~= current.push(d));
            changed = true;
        }
        i += 1;
    }
    assert(default_servers().take(defaults.len() as int) =~= default_servers());
    changed
}

/// While the first `n` built-in servers are being added, the next one is there exactly when it
/// was there from the start.
proof fn lemma_has_id_after_merge(before: Seq<ServerView>, n: int)
    requires
        0 <= n < default_servers().len(),
    ensures
        has_id(
            before + default_servers().take(n).filter(absent_from(before)),
            default_servers()[n].id,
        ) == has_id(before, default_servers()[n].id),
{
    let prefix = default_servers().take(n);
    let added = prefix.filter(absent_from(before));
    let id = default_servers()[n].id;
    let all = before + added;
    lemma_default_ids_distinct();
    if has_id(before, id) {
        let k = choose|k: int| 0 <= k < before.len() && #[trigger] before[k].id == id;
        assert(all[k].id == id);
    }
    if has_id(all, id) {
        let k = choose|k: int| 0 <= k < all.len() && #[trigger] all[k].id == id;
        if k >= before.len() {
            assert(added.contains(all[k]));
            prefix.lemma_filter_contains_rev(absent_from(before), all[k]);
            let m = choose|m: int| 0 <= m < prefix.len() && prefix[m] == all[k];
            assert(default_servers()[m].id == id);
        } else {
            assert(before[k].id == id);
        }
    }
}

/// The measurement parameters with a concurrency of an earlier default replaced by today's.
pub open spec fn upgraded(test: TestConfig) -> TestConfig {
    if is_legacy(test) {
        TestConfig { concurrency: 16, ..test }
    } else {
        test
    }
}

/// Whether the concurrency is one that earlier versions had as their default.
pub open spec fn is_legacy(test: TestConfig) -> bool {
    test.concurrency == 4 || test.concurrency == 8
}

/// Replaces a concurrency of an earlier default by today's, and says whether it was one.
pub fn upgrade_legacy_test_defaults(cfg: &mut AppConfig) -> (changed: bool)
    ensures
        final(cfg)@ == (ConfigView { test: upgraded(old(cfg)@.test), ..old(cfg)@ }),
        changed == is_legacy(old(cfg)@.test),
{
    let mut changed = false;
    if cfg.test.concurrency == 4 || cfg.test.concurrency == 8 {
        cfg.test.concurrency = 16;
        changed = true;
    }
    changed
}

/// A stored configuration brought up to date.
pub open spec fn reconciled(stored: ConfigView) -> ConfigView {
    ConfigView { test: upgraded(stored.test), ..merged(stored) }
}

/// Whether bringing a stored configuration up to date changes it.
pub open spec fn needs_reconciling(stored: ConfigView) -> bool {
    missing_servers(stored.servers).len() > 0 || is_legacy(stored.test)
}

/// The configuration to work with, given the stored one if there is any, and whether it has to
/// be written out.
pub open spec fn loaded(stored: Option<ConfigView>) -> (ConfigView, bool) {
    match stored {
        Some(cfg) => (reconciled(cfg), needs_reconciling(cfg)),
        None => (default_config(), true),
    }
}

/// The configuration to work with, and whether it has to be written out.
pub fn load_or_init_config(stored: Option<AppConfig>) -> (r: (AppConfig, bool))
    ensures
        (r.0@, r.1) == loaded(
            match stored {
                Some(cfg) => Some(cfg@),
                None => None,
            },
        ),
{
    match stored {
        Some(found) => {
            let mut cfg = found;
            let mut changed = false;
            if merge_missing_default_servers(&mut cfg) {
                changed = true;
            }
            if upgrade_legacy_test_defaults(&mut cfg) {
                changed = true;
            }
            (cfg, changed)
        },
        None => (AppConfig::default(), true),
    }
}

/// After bringing a configuration up to date every built-in server is listed under its id.
pub proof fn law_default_servers_present(stored: ConfigView, i: int)
    requires
        0 <= i < default_servers().len(),
    ensures
        has_id(reconciled(stored).servers, default_servers()[i].id),
{
    let d = default_servers()[i];
    let all = reconciled(stored).servers;
    let added = missing_servers(stored.servers);
    if has_id(stored.servers, d.id) {
        let k = choose|k: int|
            0 <= k < stored.servers.len() && #[trigger] stored.servers[k].id == d.id;
        assert(all[k].id == d.id);
    } else {
        default_servers().lemma_filter_contains(absent_from(stored.servers), i);
        let k = choose|k: int| 0 <= k < added.len() && added[k] == d;
        assert(all[stored.servers.len() + k].id == d.id);
    }
}

/// Whether no two of the servers have the same id.
pub open spec fn distinct_ids(servers: Seq<ServerView>) -> bool {
    forall|i: int, j: int| 0 <= i < j < servers.len() ==> servers[i].id != servers[j].id
}

/// Whether `k` is the one place at which a server with this id stands.
pub open spec fn is_only_one(servers: Seq<ServerView>, id: Seq<char>, k: int) -> bool {
    &&& 0 <= k < servers.len()
    &&& servers[k].id == id
    &&& forall|j: int| 0 <= j < servers.len() && (#[trigger] servers[j]).id == id ==> j == k
}

proof fn lemma_filter_keeps_distinct(servers: Seq<ServerView>, keep: spec_fn(ServerView) -> bool)
    requires
        distinct_ids(servers),
    ensures
        distinct_ids(servers.filter(keep)),
    decreases servers.len(),
{
    reveal(Seq::filter);
    if servers.len() > 0 {
        let rest = servers.drop_last();
        let kept = rest.filter(keep);
        lemma_filter_keeps_distinct(rest, keep);
        assert forall|i: int| 0 <= i < kept.len() implies (#[trigger] kept[i]).id
            != servers.last().id by {
            assert(kept.contains(kept[i]));
            rest.lemma_filter_contains_rev(keep, kept[i]);
            let m = choose|m: int| 0 <= m < rest.len() && rest[m] == kept[i];
            assert(servers[m].id == kept[i].id);
        }
    }
}

/// Bringing a configuration up to date gives no id twice: if the user's ids differ from one
/// another, so do all of them afterwards, and every built-in id is the id of exactly one server.
pub proof fn law_ids_stay_distinct(stored: ConfigView, i: int)
    requires
        distinct_ids(stored.servers),
        0 <= i < default_servers().len(),
    ensures
        distinct_ids(reconciled(stored).servers),
        exists|k: int| #[trigger]
            is_only_one(reconciled(stored).servers, default_servers()[i].id, k),
{
    let all = reconciled(stored).servers;
    let own = stored.servers;
    let added = missing_servers(own);
    lemma_default_ids_distinct();
    lemma_filter_keeps_distinct(default_servers(), absent_from(own));
    assert forall|a: int, b: int| 0 <= a < b < all.len() implies all[a].id != all[b].id by {
        if a < own.len() && b >= own.len() {
            let d = added[b - own.len()];
            assert(added.contains(d));
            default_servers().lemma_filter_pred(absent_from(own), b - own.len());
            assert(!has_id(own, d.id));
            assert(own[a].id == all[a].id);
        }
    }
    law_default_servers_present(stored, i);
    let id = default_servers()[i].id;
    let k = choose|k: int| 0 <= k < all.len() && #[trigger] all[k].id == id;
    assert(is_only_one(all, id, k));
}

/// Bringing a configuration up to date keeps the user's servers, in their order and in front.
pub proof fn law_own_servers_kept(stored: ConfigView)
    ensures
        stored.servers.is_prefix_of(reconciled(stored).servers),
        reconciled(stored).version == stored.version,
{
    assert(reconciled(stored).servers.subrange(0, stored.servers.len() as int) =~= stored.servers);
}

/// A configuration that was brought up to date needs no second pass, and a second pass leaves it
/// as it is.
pub proof fn law_reconciling_once_is_enough(stored: ConfigView)
    ensures
        !needs_reconciling(reconciled(stored)),
        reconciled(reconciled(stored)) == reconciled(stored),
{
    let once = reconciled(stored);
    assert forall|i: int| 0 <= i < default_servers().len() implies !absent_from(once.servers)(
        #[trigger] default_servers()[i],
    ) by {
        law_default_servers_present(stored, i);
    }
    default_servers().lemma_all_neg_filter_empty(absent_from(once.servers));
    assert(once.servers + missing_servers(once.servers) =~= once.servers);
}

/// A configuration that needs no bringing up to date is left as it is.
pub proof fn law_current_config_unchanged(stored: ConfigView)
    requires
        !needs_reconciling(stored),
    ensures
        reconciled(stored) == stored,
{
    assert(stored.servers + missing_servers(stored.servers) =~= stored.servers);
}

/// The built-in configuration is up to date.
pub proof fn law_default_config_is_current()
    ensures
        !needs_reconciling(default_config()),
{
    assert forall|i: int| 0 <= i < default_servers().len() implies !absent_from(default_servers())(
        #[trigger] default_servers()[i],
    ) by {
        assert(has_id(default_servers(), default_servers()[i].id));
    }
    default_servers().lemma_all_neg_filter_empty(absent_from(default_servers()));
}

/// Bringing a configuration up to date adds built-in servers only, each as it is built in and
/// only where the user has none of its id.
pub proof fn law_only_built_in_servers_are_added(stored: ConfigView, k: int)
    requires
        stored.servers.len() <= k < reconciled(stored).servers.len(),
    ensures
        default_servers().contains(reconciled(stored).servers[k]),
        !has_id(stored.servers, reconciled(stored).servers[k].id),
{
    let added = missing_servers(stored.servers);
    let i = k - stored.servers.len();
    assert(reconciled(stored).servers[k] == added[i]);
    assert(added.contains(added[i]));
    default_servers().lemma_filter_contains_rev(absent_from(stored.servers), added[i]);
    default_servers().lemma_filter_pred(absent_from(stored.servers), i);
}

/// The servers that are added keep the order in which they are built in.
pub proof fn law_added_servers_keep_their_order(stored: ConfigView, a: int, b: int, i: int, j: int)
    requires
        stored.servers.len() <= a < b < reconciled(stored).servers.len(),
        0 <= i < default_servers().len(),
        0 <= j < default_servers().len(),
        reconciled(stored).servers[a] == default_servers()[i],
        reconciled(stored).servers[b] == default_servers()[j],
    ensures
        i < j,
{
    let own = stored.servers.len() as int;
    lemma_default_ids_distinct();
    lemma_filter_keeps_order(default_servers(), absent_from(stored.servers), a - own, b - own);
    let (x, y): (int, int) = choose|x: int, y: int|
        0 <= x < y < default_servers().len() && #[trigger] default_servers()[x]
            == missing_servers(stored.servers)[a - own] && #[trigger] default_servers()[y]
            == missing_servers(stored.servers)[b - own];
    assert(default_servers()[x].id == default_servers()[i].id);
    assert(default_servers()[y].id == default_servers()[j].id);
}

proof fn lemma_filter_keeps_order(
    servers: Seq<ServerView>,
    keep: spec_fn(ServerView) -> bool,
    a: int,
    b: int,
)
    requires
        0 <= a < b < servers.filter(keep).len(),
    ensures
        exists|x: int, y: int|
            0 <= x < y < servers.len() && #[trigger] servers[x] == servers.filter(keep)[a]
                && #[trigger] servers[y] == servers.filter(keep)[b],
    decreases servers.len(),
{
    reveal(Seq::filter);
    let rest = servers.drop_last();
    let kept = rest.filter(keep);
    if b < kept.len() {
        lemma_filter_keeps_order(rest, keep, a, b);
        let (x, y): (int, int) = choose|x: int, y: int|
            0 <= x < y < rest.len() && #[trigger] rest[x] == kept[a] && #[trigger] rest[y]
                == kept[b];
        assert(servers[x] == servers.filter(keep)[a] && servers[y] == servers.filter(keep)[b]);
    } else {
        assert(kept.contains(kept[a]));
        rest.lemma_filter_contains_rev(keep, kept[a]);
        let x = choose|x: int| 0 <= x < rest.len() && rest[x] == kept[a];
        let y = servers.len() - 1;
        assert(servers[x] == servers.filter(keep)[a] && servers[y] == servers.filter(keep)[b]);
    }
}

/// Bringing a configuration up to date changes no parameter but a concurrency of 4 or 8, which
/// becomes the default of 16.
pub proof fn law_only_old_concurrency_is_raised(stored: ConfigView)
    ensures
        ({
            let test = reconciled(stored).test;
            &&& stored.test.concurrency == 4 || stored.test.concurrency == 8 ==> test.concurrency
                == default_test().concurrency
            &&& stored.test.concurrency != 4 && stored.test.concurrency != 8 ==> test.concurrency
                == stored.test.concurrency
            &&& test.duration_seconds == stored.test.duration_seconds
            &&& test.timeout_seconds == stored.test.timeout_seconds
            &&& test.chunk_size_bytes == stored.test.chunk_size_bytes
            &&& test.max_download_bytes == stored.test.max_download_bytes
            &&& test.max_upload_bytes == stored.test.max_upload_bytes
            &&& test.save_history == stored.test.save_history
            &&& test.latency_probe_count == stored.test.latency_probe_count
        }),
        default_test().concurrency == 16,
{
}

/// A configuration is written out exactly when it is not the one that was stored: at the first
/// start, and when bringing it up to date changed it.
pub proof fn law_written_exactly_when_changed(stored: Option<ConfigView>)
    ensures
        loaded(stored).1 <==> stored != Some(loaded(stored).0),
        stored is None ==> loaded(stored).0 == default_config(),
        stored matches Some(cfg) ==> loaded(stored).0 == reconciled(cfg),
{
    if let Some(cfg) = stored {
        if needs_reconciling(cfg) {
            if missing_servers(cfg.servers).len() > 0 {
                assert(reconciled(cfg).servers.len() > cfg.servers.len());
            }
        } else {
            law_current_config_unchanged(cfg);
        }
    }
}

/// The URLs of the built-in servers.
pub proof fn law_built_in_servers(k: int)
    requires
        0 <= k < default_servers().len(),
    ensures
        ({
            let s = default_servers()[k];
            &&& s.id == "zju-ipv4"@ ==> s.name == "ZJU Speedtest IPv4"@ && s.download_url
                == "http://speedtest.zju.edu.cn/garbage.php"@ && s.upload_url
                == "http://speedtest.zju.edu.cn/empty.php"@
            &&& s.id == "zju-ipv6"@ ==> s.name == "ZJU Speedtest IPv6"@ && s.download_url
                == "http://speedtest.zju6.edu.cn/garbage.php"@ && s.upload_url
                == "http://speedtest.zju6.edu.cn/empty.php"@
            &&& s.id == "zju-ipv4"@ || s.id == "zju-ipv6"@ ==> s.latency_url == s.upload_url
            &&& s.id == "cloudflare"@ ==> s.name == "Cloudflare"@ && s.download_url
                == "https://speed.cloudflare.com/__down?bytes=25000000"@ && s.upload_url
                == "https://speed.cloudflare.com/__up"@ && s.latency_url
                == "https://speed.cloudflare.com/__down?bytes=1000"@
            &&& s.id == "fsn1-hetzner"@ ==> s.name == "Hetzner FSN1"@ && s.download_url
                == "https://speed.hetzner.de/100MB.bin"@ && s.upload_url
                == "https://httpbin.org/post"@ && s.latency_url == "https://httpbin.org/get"@
        }),
        has_id(default_servers(), "zju-ipv4"@),
        has_id(default_servers(), "zju-ipv6"@),
        has_id(default_servers(), "cloudflare"@),
        has_id(default_servers(), "fsn1-hetzner"@),
        default_servers().len() == 4,
{
    lemma_default_ids_distinct();
    let d = default_servers();
    assert(d[0].id == "zju-ipv4"@ && d[1].id == "zju-ipv6"@);
    assert(d[2].id == "cloudflare"@ && d[3].id == "fsn1-hetzner"@);
}

} // verus!
