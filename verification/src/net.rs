//! Network odds and ends: the address behind a URL, and counting what a stream delivers.

use crate::result::optional_text;
use crate::number::{all_digits, digits_value, lemma_decimal_reads_back};
use crate::text::{decimal, decimal_text};
use vstd::prelude::*;

verus! {

/// The host of a URL and the port that it names or that its scheme implies, each if there is
/// one; nothing if the text is no URL.
pub uninterp spec fn url_endpoint(url: Seq<char>) -> Option<(Option<Seq<char>>, Option<u16>)>;

/// An endpoint with the characters of its host.
pub open spec fn endpoint_view(
    endpoint: Option<(Option<String>, Option<u16>)>,
) -> Option<(Option<Seq<char>>, Option<u16>)> {
    match endpoint {
        Some((host, port)) => Some((optional_text(host), port)),
        None => None,
    }
}

/// `reqwest::Url::parse`, with `host_str` and `port_or_known_default` of the URL that it gives:
/// they depend on the text alone. What they are is left to the URL standard.
#[verifier::external_body]
fn parse_url(url: &str) -> (r: Option<(Option<String>, Option<u16>)>)
    ensures
        endpoint_view(r) == url_endpoint(url@),
{
    match reqwest::Url::parse(url) {
        Ok(u) => Some((u.host_str().map(|h| h.to_string()), u.port_or_known_default())),
        Err(_) => None,
    }
}

/// The address of an endpoint that has both a host and a port.
pub open spec fn endpoint_address(
    endpoint: Option<(Option<Seq<char>>, Option<u16>)>,
) -> Option<Seq<char>> {
    match endpoint {
        Some((Some(host), Some(port))) => Some(host + ":"@ + decimal(port as nat)),
        _ => None,
    }
}

/// The address of an endpoint that has both a host and a port.
pub fn join_address(endpoint: &Option<(Option<String>, Option<u16>)>) -> (r: Option<String>)
    ensures
        optional_text(r) == endpoint_address(endpoint_view(*endpoint)),
{
    match endpoint {
        Some((Some(host), Some(port))) => {
            let mut address = host.clone();
            address.append(":");
            address.append(decimal_text(*port as u64).as_str());
            Some(address)
        },
        _ => None,
    }
}

/// The address to look up for a URL.
pub fn host_address(url: &str) -> (r: Option<String>)
    ensures
        optional_text(r) == endpoint_address(url_endpoint(url@)),
{
    join_address(&parse_url(url))
}

/// How many bytes a read brought; a failed one brought none.
pub open spec fn count_of<E>(read: Result<usize, E>) -> nat {
    match read {
        Ok(n) => n as nat,
        Err(_) => 0,
    }
}

/// The sum of the counts in front of the first read that brought nothing.
pub open spec fn total_read<E>(reads: Seq<Result<usize, E>>) -> nat
    decreases reads.len(),
{
    if reads.len() == 0 || count_of(reads[0]) == 0 {
        0
    } else {
        count_of(reads[0]) + total_read(reads.skip(1))
    }
}

/// The error of the first read that brought nothing, if it failed.
pub open spec fn read_failure<E>(reads: Seq<Result<usize, E>>) -> Option<E>
    decreases reads.len(),
{
    if reads.len() == 0 {
        None
    } else {
        match reads[0] {
            Err(e) => Some(e),
            Ok(n) => if n == 0 {
                None
            } else {
                read_failure(reads.skip(1))
            },
        }
    }
}

/// The sum of the first `n` counts.
pub open spec fn prefix_sum<E>(reads: Seq<Result<usize, E>>, n: int) -> nat
    decreases n,
{
    if n <= 0 {
        0
    } else {
        prefix_sum(reads, n - 1) + count_of(reads[n - 1])
    }
}

proof fn lemma_prefix_and_rest<E>(reads: Seq<Result<usize, E>>, n: int)
    requires
        0 <= n <= reads.len(),
        forall|i: int| 0 <= i < n ==> count_of(#[trigger] reads[i]) != 0,
    ensures
        total_read(reads) == prefix_sum(reads, n) + total_read(reads.skip(n)),
        read_failure(reads) == read_failure(reads.skip(n)),
    decreases n,
{
    if n == 0 {
        assert(reads.skip(0) =~= reads);
    } else {
        lemma_prefix_and_rest(reads, n - 1);
        let rest = reads.skip(n - 1);
        assert(rest[0] == reads[n - 1]);
        assert(count_of(rest[0]) != 0);
        assert(rest.skip(1) =~= reads.skip(n));
    }
}

/// What is counted after reading `n` bytes on top of `total`, unless the stream is at its end:
/// then nothing was read.
pub fn after_read(total: usize, n: usize) -> (r: Option<usize>)
    requires
        total + n <= usize::MAX,
    ensures
        r == if n == 0 {
            None
        } else {
            Some((total + n) as usize)
        },
{
    if n == 0 {
        None
    } else {
        Some(total + n)
    }
}

/// What is counted after a read on top of `total`, unless the stream is at its end. A failed read
/// is the failure of the whole: it is neither counted nor tried again.
pub fn after_outcome<E>(total: usize, read: Result<usize, E>) -> (r: Result<Option<usize>, E>)
    requires
        total + count_of(read) <= usize::MAX,
    ensures
        match read {
            Ok(n) => r == Ok::<Option<usize>, E>(
                if n == 0 {
                    None
                } else {
                    Some((total + n) as usize)
                },
            ),
            Err(e) => r == Err::<Option<usize>, E>(e),
        },
{
    match read {
        Ok(n) => Ok(after_read(total, n)),
        Err(e) => Err(e),
    }
}

/// How many bytes a stream delivered, given what reading it gave: a count of zero is its end, and
/// a failed read is the failure of the whole.
pub fn read_all<E>(reads: &Vec<Result<usize, E>>) -> (r: Result<usize, &E>)
    requires
        total_read(reads@) <= usize::MAX,
    ensures
        match read_failure(reads@) {
            Some(e) => r matches Err(why) && *why == e,
            None => r matches Ok(total) && total == total_read(reads@),
        },
{
    let mut total: usize = 0;
    let mut i: usize = 0;
    while i < reads.len()
        invariant
            i <= reads.len(),
            forall|k: int| 0 <= k < i ==> count_of(#[trigger] reads@[k]) != 0,
            total == prefix_sum(reads@, i as int),
            total_read(reads@) <= usize::MAX,
        decreases reads.len() - i,
    {
        proof {
            lemma_prefix_and_rest(reads@, i as int);
            assert(reads@.skip(i as int)[0] == reads@[i as int]);
        }
        let read: Result<usize, &E> = match &reads[i] {
            Ok(n) => Ok(*n),
            Err(e) => Err(e),
        };
        match after_outcome(total, read) {
            Ok(Some(sum)) => {
                total = sum;
            },
            Ok(None) => {
                return Ok(total);
            },
            Err(e) => {
                return Err(e);
            },
        }
        i += 1;
    }
    proof {
        lemma_prefix_and_rest(reads@, i as int);
    }
    Ok(total)
}

/// The first read that brings nothing decides, whatever would come behind it: if it failed, its
/// error is the outcome, and if it is the end, what was counted in front of it is.
pub proof fn law_first_empty_read_decides<E>(reads: Seq<Result<usize, E>>, k: int)
    requires
        0 <= k < reads.len(),
        count_of(reads[k]) == 0,
        forall|i: int| 0 <= i < k ==> count_of(#[trigger] reads[i]) != 0,
    ensures
        total_read(reads) == prefix_sum(reads, k),
        read_failure(reads) == (match reads[k] {
            Err(e) => Some(e),
            Ok(_) => None,
        }),
{
    lemma_prefix_and_rest(reads, k);
    assert(reads.skip(k)[0] == reads[k]);
}

/// Reads in front of the end add up: a single one counts for its own bytes, and those of two
/// stretches count for what each stretch counts for.
pub proof fn law_reads_add_up<E>(a: Seq<Result<usize, E>>, b: Seq<Result<usize, E>>, n: usize)
    requires
        forall|i: int| 0 <= i < a.len() ==> (#[trigger] a[i]) is Ok && a[i]->Ok_0 > 0,
    ensures
        total_read(seq![Ok::<usize, E>(n)]) == n,
        total_read(a + b) == total_read(a) + total_read(b),
        read_failure(a + b) == read_failure(b),
    decreases a.len(),
{
    let one = seq![Ok::<usize, E>(n)];
    assert(one.skip(1) =~= Seq::<Result<usize, E>>::empty());
    assert(total_read(one.skip(1)) == 0);
    if a.len() == 0 {
        assert(a + b =~= b);
    } else {
        assert(a[0] is Ok && a[0]->Ok_0 > 0);
        law_reads_add_up(a.skip(1), b, n);
        assert((a + b).skip(1) =~= a.skip(1) + b);
    }
}

/// An address is the host, a colon and the numeral of the port, and there is one exactly where
/// there are both.
pub proof fn law_address_names_host_and_port(
    endpoint: Option<(Option<Seq<char>>, Option<u16>)>,
)
    ensures
        endpoint_address(endpoint) is Some <==> endpoint is Some && endpoint->Some_0.0 is Some
            && endpoint->Some_0.1 is Some,
        endpoint_address(endpoint) matches Some(address) ==> {
            let host = endpoint->Some_0.0->Some_0;
            let port = address.skip(host.len() as int + 1);
            &&& address.take(host.len() as int) == host
            &&& address[host.len() as int] == ':'
            &&& all_digits(port) && digits_value(port) == endpoint->Some_0.1->Some_0
        },
{
    reveal_strlit(":");
    match endpoint {
        Some((Some(host), Some(port))) => {
            let address = host + ":"@ + decimal(port as nat);
            lemma_decimal_reads_back(port as nat);
            assert(address.take(host.len() as int) =~= host);
            assert(address.skip(host.len() as int + 1) =~= decimal(port as nat));
        },
        _ => {},
    }
}

} // verus!
