//! Choosing the server to measure against: the one the user names, or the one that answers a
//! probe fastest.

use crate::config::{server_views, AppConfig, ConfigView, Server, ServerView};
use crate::error::Error;
use crate::reading::Reading;
use crate::text::{begins_with, same_text};
use vstd::prelude::*;

verus! {

/// How a server is chosen.
#[derive(Debug, PartialEq, Eq)]
pub enum Selection {
    /// This one is taken.
    Chosen(Server),
    /// All configured servers are probed, each with this timeout in seconds.
    Probe { timeout_secs: u64 },
}

/// Whether the user means this server: by its id or by its name.
pub open spec fn is_named(server: ServerView, target: Seq<char>) -> bool {
    server.id == target || server.name == target
}

/// Whether `k` is the first of the servers that the user can mean.
pub open spec fn is_first_named(servers: Seq<ServerView>, target: Seq<char>, k: int) -> bool {
    &&& 0 <= k < servers.len()
    &&& is_named(servers[k], target)
    &&& forall|j: int| 0 <= j < k ==> !is_named(#[trigger] servers[j], target)
}

/// Whether the text is the URL of a server.
pub open spec fn is_url(target: Seq<char>) -> bool {
    "http://"@.is_prefix_of(target) || "https://"@.is_prefix_of(target)
}

/// The server of a URL that the user gave: everything is measured against that URL.
pub open spec fn custom_server(target: Seq<char>) -> ServerView {
    ServerView {
        id: "custom"@,
        name: "Custom Server"@,
        download_url: target,
        upload_url: target,
        latency_url: target,
    }
}

/// The timeout of a selection probe: the configured one, but between 1 and 3 seconds.
pub open spec fn selection_timeout(configured: u64) -> u64 {
    if configured < 1 {
        1
    } else if configured > 3 {
        3
    } else {
        configured
    }
}

/// The first of the servers that the user can mean.
fn find_named(servers: &Vec<Server>, target: &str) -> (r: Option<usize>)
    ensures
        match r {
            Some(k) => is_first_named(server_views(servers@), target@, k as int),
            None => forall|j: int|
                0 <= j < servers@.len() ==> !is_named(
                    #[trigger] server_views(servers@)[j],
                    target@,
                ),
        },
{
    let mut i: usize = 0;
    while i < servers.len()
        invariant
            i <= servers.len(),
            forall|j: int|
                0 <= j < i ==> !is_named(#[trigger] server_views(servers@)[j], target@),
        decreases servers.len() - i,
    {
        if same_text(servers[i].id.as_str(), target) || same_text(
            servers[i].name.as_str(),
            target,
        ) {
            assert(is_named(server_views(servers@)[i as int], target@));
            return Some(i);
        }
        i += 1;
    }
    None
}

/// Whether none of the servers is one that the user can mean.
pub open spec fn none_named(servers: Seq<ServerView>, target: Seq<char>) -> bool {
    forall|j: int| 0 <= j < servers.len() ==> !is_named(#[trigger] servers[j], target)
}

/// Whether `r` is how the server is chosen, given what the user asked for.
pub open spec fn selection_outcome(
    cfg: ConfigView,
    target: Option<Seq<char>>,
    r: Result<Selection, Error>,
) -> bool {
    match target {
        None => r matches Ok(Selection::Probe { timeout_secs }) && timeout_secs
            == selection_timeout(cfg.test.timeout_seconds),
        Some(target) => match r {
            Ok(Selection::Chosen(server)) => {
                ||| exists|k: int|
                    is_first_named(cfg.servers, target, k) && server@ == #[trigger] cfg.servers[k]
                ||| {
                    &&& none_named(cfg.servers, target)
                    &&& is_url(target)
                    &&& server@ == custom_server(target)
                }
            },
            Ok(Selection::Probe { .. }) => false,
            Err(e) => {
                &&& none_named(cfg.servers, target)
                &&& !is_url(target)
                &&& e matches Error::ServerNotFound(name)
                &&& name@ == target
            },
        },
    }
}

/// How the server is chosen, given what the user asked for.
pub fn select_server(cfg: &AppConfig, target: Option<&str>) -> (r: Result<Selection, Error>)
    ensures
        selection_outcome(
            cfg@,
            match target {
                Some(text) => Some(text@),
                None => None,
            },
            r,
        ),
{
    match target {
        Some(target) => {
            match find_named(&cfg.servers, target) {
                Some(k) => {
                    let server = cfg.servers[k].clone();
                    assert(server@ == cfg@.servers[k as int]);
                    return Ok(Selection::Chosen(server));
                },
                None => {},
            }
            if begins_with(target, "http://") || begins_with(target, "https://") {
                return Ok(
                    Selection::Chosen(
                        Server::new("custom", "Custom Server", target, target, target),
                    ),
                );
            }
            Err(Error::ServerNotFound(target.to_owned()))
        },
        None => {
            let configured = cfg.test.timeout_seconds;
            let timeout_secs: u64 = if configured < 1 {
                1
            } else if configured > 3 {
                3
            } else {
                configured
            };
            Ok(Selection::Probe { timeout_secs })
        },
    }
}

/// Which of the probes is preferred, in the order in which they ended: a later one only if its
/// time is not at least that of the one preferred so far. A probe that failed has no time.
pub open spec fn winner(probes: Seq<Option<(Reading, Server)>>) -> Option<int>
    decreases probes.len(),
{
    if probes.len() == 0 {
        None
    } else {
        let before = winner(probes.drop_last());
        match probes.last() {
            None => before,
            Some((ms, _)) => match before {
                Some(k) => if ms.at_least(probes[k]->Some_0.0) {
                    Some(k)
                } else {
                    Some(probes.len() - 1)
                },
                None => Some(probes.len() - 1),
            },
        }
    }
}

/// Whether `r` is the server of the preferred probe, with its time.
pub open spec fn prefers(
    probes: Seq<Option<(Reading, Server)>>,
    r: Result<(Server, Reading), Error>,
) -> bool {
    match winner(probes) {
        Some(k) => {
            &&& r matches Ok((server, ms))
            &&& 0 <= k < probes.len()
            &&& probes[k] is Some
            &&& server@ == probes[k]->Some_0.1@
            &&& ms == probes[k]->Some_0.0
        },
        None => r matches Err(Error::AllProbesFailed),
    }
}

/// The server whose probe was fastest, with its time, from the probes in the order in which they
/// ended.
pub fn best_server(probes: &Vec<Option<(Reading, Server)>>) -> (r: Result<(Server, Reading), Error>)
    ensures
        prefers(probes@, r),
{
    let mut best: Option<usize> = None;
    let mut best_ms = Reading { bits: 0 };
    let mut i: usize = 0;
    assert(probes@.take(0) =~= Seq::empty());
    while i < probes.len()
        invariant
            i <= probes.len(),
            match best {
                Some(k) => {
                    &&& winner(probes@.take(i as int)) == Some(k as int)
                    &&& k < i
                    &&& probes@[k as int] is Some
                    &&& best_ms == probes@[k as int]->Some_0.0
                },
                None => winner(probes@.take(i as int)) is None,
            },
        decreases probes.len() - i,
    {
        assert(probes@.take(i + 1).drop_last() =~= probes@.take(i as int));
        assert(probes@.take(i + 1).last() == probes@[i as int]);
        match &probes[i] {
            Some((ms, _)) => match best {
                Some(k) => {
                    if !ms.ge(&best_ms) {
                        best = Some(i);
                        best_ms = *ms;
                    }
                },
                None => {
                    best = Some(i);
                    best_ms = *ms;
                },
            },
            None => {},
        }
        i += 1;
    }
    assert(probes@.take(probes.len() as int) =~= probes@);
    match best {
        Some(k) => match &probes[k] {
            Some((ms, server)) => Ok((server.clone(), *ms)),
            None => Err(Error::AllProbesFailed),
        },
        None => Err(Error::AllProbesFailed),
    }
}

/// The preferred probe is one that did not fail, none is faster, and none that ended before it
/// is as fast. There is one unless all failed.
pub proof fn law_winner_is_fastest(probes: Seq<Option<(Reading, Server)>>)
    requires
        forall|i: int|
            0 <= i < probes.len() && (#[trigger] probes[i]) is Some
                ==> !probes[i]->Some_0.0.is_nan(),
    ensures
        match winner(probes) {
            Some(k) => {
                &&& 0 <= k < probes.len()
                &&& probes[k] is Some
                &&& forall|j: int|
                    0 <= j < probes.len() && (#[trigger] probes[j]) is Some
                        ==> probes[k]->Some_0.0.value() <= probes[j]->Some_0.0.value()
                &&& forall|j: int|
                    0 <= j < k && (#[trigger] probes[j]) is Some ==> probes[k]->Some_0.0.value()
                        < probes[j]->Some_0.0.value()
            },
            None => forall|j: int| 0 <= j < probes.len() ==> (#[trigger] probes[j]) is None,
        },
    decreases probes.len(),
{
    if probes.len() > 0 {
        let rest = probes.drop_last();
        assert forall|i: int| 0 <= i < rest.len() implies #[trigger] rest[i] == probes[i] by {}
        law_winner_is_fastest(rest);
        match winner(rest) {
            Some(k) => {
                assert(rest[k] == probes[k]);
                assert forall|j: int| 0 <= j < probes.len() && (#[trigger] probes[j]) is Some && j
                    < probes.len() - 1 implies probes[k]->Some_0.0.value()
                    <= probes[j]->Some_0.0.value() by {
                    assert(rest[j] == probes[j]);
                }
                assert forall|j: int| 0 <= j < k && (#[trigger] probes[j]) is Some implies probes[
                k]->Some_0.0.value() < probes[j]->Some_0.0.value() by {
                    assert(rest[j] == probes[j]);
                }
            },
            None => {
                assert forall|j: int| 0 <= j < probes.len() - 1 implies (
                #[trigger] probes[j]) is None by {
                    assert(rest[j] == probes[j]);
                }
            },
        }
    }
}

/// The server that is chosen by probing is one that answered, it is given with the time that its
/// own probe took, and no other was faster. It fails exactly when none answered.
pub proof fn law_fastest_server_is_chosen(
    probes: Seq<Option<(Reading, Server)>>,
    r: Result<(Server, Reading), Error>,
    j: int,
)
    requires
        prefers(probes, r),
        forall|i: int|
            0 <= i < probes.len() && (#[trigger] probes[i]) is Some
                ==> !probes[i]->Some_0.0.is_nan(),
        0 <= j < probes.len(),
    ensures
        r is Err <==> forall|i: int| 0 <= i < probes.len() ==> (#[trigger] probes[i]) is None,
        r is Err ==> r->Err_0 == Error::AllProbesFailed,
        r matches Ok((_, ms)) ==> (probes[j] matches Some((other, _)) ==> ms.value()
            <= other.value()),
        r matches Ok((server, ms)) ==> exists|k: int|
            0 <= k < probes.len() && (#[trigger] probes[k]) is Some && probes[k]->Some_0.0 == ms
                && probes[k]->Some_0.1@ == server@,
{
    law_winner_is_fastest(probes);
}

/// A server that the user names by its id or its name is taken; if they can mean several, the
/// first.
pub proof fn law_named_server_is_taken(
    cfg: ConfigView,
    target: Seq<char>,
    r: Result<Selection, Error>,
    j: int,
)
    requires
        selection_outcome(cfg, Some(target), r),
        0 <= j < cfg.servers.len(),
        cfg.servers[j].id == target || cfg.servers[j].name == target,
    ensures
        r matches Ok(Selection::Chosen(server)) && (server@.id == target || server@.name == target)
            && exists|k: int| 0 <= k <= j && server@ == #[trigger] cfg.servers[k],
{
    assert(is_named(cfg.servers[j], target));
    let server = r->Ok_0->Chosen_0;
    let k = choose|k: int|
        is_first_named(cfg.servers, target, k) && server@ == #[trigger] cfg.servers[k];
    assert(is_named(cfg.servers[k], target));
    assert(k <= j);
}

/// A URL that is no server's id or name is a server of its own: everything is measured against
/// exactly that URL.
pub proof fn law_url_is_a_server(
    cfg: ConfigView,
    rest: Seq<char>,
    secure: bool,
    r: Result<Selection, Error>,
)
    requires
        ({
            let url = if secure {
                "https://"@ + rest
            } else {
                "http://"@ + rest
            };
            &&& selection_outcome(cfg, Some(url), r)
            &&& forall|j: int|
                0 <= j < cfg.servers.len() ==> (#[trigger] cfg.servers[j]).id != url
                    && cfg.servers[j].name != url
        }),
    ensures
        ({
            let url = if secure {
                "https://"@ + rest
            } else {
                "http://"@ + rest
            };
            &&& r matches Ok(Selection::Chosen(server))
            &&& server@.download_url == url
            &&& server@.upload_url == url
            &&& server@.latency_url == url
            &&& server@.id == "custom"@
            &&& server@.name == "Custom Server"@
        }),
{
    let front = if secure {
        "https://"@
    } else {
        "http://"@
    };
    let url = front + rest;
    assert(url.subrange(0, front.len() as int) =~= front);
    assert forall|j: int| 0 <= j < cfg.servers.len() implies !is_named(
        #[trigger] cfg.servers[j],
        url,
    ) by {}
}

/// What is neither the id nor the name of a server nor begins like a URL is refused, and the
/// error repeats it.
pub proof fn law_unknown_server_is_refused(
    cfg: ConfigView,
    target: Seq<char>,
    r: Result<Selection, Error>,
)
    requires
        selection_outcome(cfg, Some(target), r),
        forall|j: int|
            0 <= j < cfg.servers.len() ==> (#[trigger] cfg.servers[j]).id != target
                && cfg.servers[j].name != target,
        forall|rest: Seq<char>| target != #[trigger] ("http://"@ + rest),
        forall|rest: Seq<char>| target != #[trigger] ("https://"@ + rest),
    ensures
        r matches Err(Error::ServerNotFound(name)) && name@ == target,
{
    if "http://"@.is_prefix_of(target) {
        let rest = target.skip("http://"@.len() as int);
        assert(target =~= "http://"@ + rest);
    }
    if "https://"@.is_prefix_of(target) {
        let rest = target.skip("https://"@.len() as int);
        assert(target =~= "https://"@ + rest);
    }
    if let Ok(Selection::Chosen(server)) = r {
        if exists|k: int|
            is_first_named(cfg.servers, target, k) && server@ == #[trigger] cfg.servers[k] {
            let k = choose|k: int|
                is_first_named(cfg.servers, target, k) && server@ == #[trigger] cfg.servers[k];
            assert(is_named(cfg.servers[k], target));
            assert(cfg.servers[k].id != target);
        }
    }
}

/// Without a server named, all are probed, with a timeout between 1 and 3 seconds that is the
/// configured one wherever that is in between.
pub proof fn law_probes_wait_one_to_three_seconds(cfg: ConfigView, r: Result<Selection, Error>)
    requires
        selection_outcome(cfg, None, r),
    ensures
        r matches Ok(Selection::Probe { timeout_secs }) && {
            &&& 1 <= timeout_secs <= 3
            &&& 1 <= cfg.test.timeout_seconds <= 3 ==> timeout_secs == cfg.test.timeout_seconds
            &&& cfg.test.timeout_seconds > 3 ==> timeout_secs == 3
            &&& cfg.test.timeout_seconds < 1 ==> timeout_secs == 1
        },
{
}

} // verus!
