//! Throughput measurement: how much a run may transfer and how each of its workers goes on.

use rand::RngCore;
use vstd::prelude::*;

verus! {

/// The number of bytes that `floor_mbps` moves in `duration_seconds`, where each product that
/// exceeds the range stays at its end.
pub open spec fn floor_bytes(duration_seconds: u64, floor_mbps: u64) -> int {
    let megabits = saturated(duration_seconds * floor_mbps);
    saturated(megabits * 1_000_000) / 8
}

/// The number, or the largest `u64` if it is larger.
pub open spec fn saturated(n: int) -> int {
    if n > u64::MAX {
        u64::MAX as int
    } else {
        n
    }
}

/// The larger of a configured cap and what a floor asks for.
pub open spec fn effective_cap(
    base_cap_bytes: u64,
    duration_seconds: u64,
    floor_mbps: u64,
) -> int {
    if base_cap_bytes >= floor_bytes(duration_seconds, floor_mbps) {
        base_cap_bytes as int
    } else {
        floor_bytes(duration_seconds, floor_mbps)
    }
}

fn saturating_product(a: u64, b: u64) -> (r: u64)
    ensures
        r as int == saturated(a * b),
{
    match a.checked_mul(b) {
        Some(product) => product,
        None => u64::MAX,
    }
}

/// How many bytes a run may transfer: the configured cap, or what `floor_mbps` moves in the time
/// if that is more.
pub fn compute_dynamic_cap(base_cap_bytes: u64, duration_seconds: u64, floor_mbps: u64) -> (r: u64)
    ensures
        r == effective_cap(base_cap_bytes, duration_seconds, floor_mbps),
{
    proof {
        assert(duration_seconds * floor_mbps >= 0) by (nonlinear_arith)
            requires
                duration_seconds >= 0,
                floor_mbps >= 0,
        ;
    }
    let megabits = saturating_product(duration_seconds, floor_mbps);
    let floor = saturating_product(megabits, 1_000_000) / 8;
    if base_cap_bytes >= floor {
        base_cap_bytes
    } else {
        floor
    }
}

/// The effective cap is never below the configured one, and a longer run, a higher floor or a
/// higher configured cap never lowers it.
pub proof fn law_cap_grows(b1: u64, b2: u64, d1: u64, d2: u64, f1: u64, f2: u64)
    requires
        b1 <= b2,
        d1 <= d2,
        f1 <= f2,
    ensures
        b1 <= effective_cap(b1, d1, f1) <= effective_cap(b2, d2, f2),
{
    assert(d1 * f1 <= d2 * f2) by (nonlinear_arith)
        requires
            0 <= d1 <= d2,
            0 <= f1 <= f2,
    ;
}

/// How many workers a run has: as many as configured, but at least one.
pub open spec fn workers_for(concurrency: usize) -> usize {
    if concurrency >= 1 {
        concurrency
    } else {
        1
    }
}

/// How many workers a run has.
pub fn worker_count(concurrency: usize) -> (r: usize)
    ensures
        r == workers_for(concurrency),
{
    if concurrency >= 1 {
        concurrency
    } else {
        1
    }
}

/// Whether a worker may go on: the time is not up, and fewer bytes than the cap were counted.
pub open spec fn may_go_on(expired: bool, total: u64, max_bytes: u64) -> bool {
    !expired && total < max_bytes
}

/// Where a download worker stands.
#[derive(Debug, Clone, Copy, PartialEq, Eq, Structural)]
pub enum DownloadWorker {
    /// Between two responses.
    Ready,
    /// In the middle of a response.
    Streaming,
    /// At its end.
    Finished,
}

/// What a download worker does next.
#[derive(Debug, Clone, Copy, PartialEq, Eq, Structural)]
pub enum DownloadStep {
    /// Send a request.
    Request,
    /// Read the next chunk of the response.
    ReadChunk,
    /// Leave the response, and look again.
    LeaveResponse,
    /// End.
    Stop,
}

/// What came of reading a chunk.
#[derive(Debug, Clone, Copy, PartialEq, Eq, Structural)]
pub enum Chunk {
    /// So many bytes.
    Data(u64),
    /// The response is at its end.
    End,
    /// It broke off.
    Failed,
}

impl DownloadWorker {
    /// What the worker does next, given whether it may go on.
    pub open spec fn step(self, open: bool) -> DownloadStep {
        match self {
            DownloadWorker::Ready => if open {
                DownloadStep::Request
            } else {
                DownloadStep::Stop
            },
            DownloadWorker::Streaming => if open {
                DownloadStep::ReadChunk
            } else {
                DownloadStep::LeaveResponse
            },
            DownloadWorker::Finished => DownloadStep::Stop,
        }
    }

    /// What the worker does next.
    pub fn next_step(&self, expired: bool, total: u64, max_bytes: u64) -> (r: DownloadStep)
        ensures
            r == self.step(may_go_on(expired, total, max_bytes)),
    {
        let open = !expired && total < max_bytes;
        match self {
            DownloadWorker::Ready => if open {
                DownloadStep::Request
            } else {
                DownloadStep::Stop
            },
            DownloadWorker::Streaming => if open {
                DownloadStep::ReadChunk
            } else {
                DownloadStep::LeaveResponse
            },
            DownloadWorker::Finished => DownloadStep::Stop,
        }
    }

    /// Where a worker stands after it left its response.
    pub open spec fn left() -> DownloadWorker {
        DownloadWorker::Ready
    }

    /// Where a worker stands after it left its response.
    pub fn after_leaving() -> (r: DownloadWorker)
        ensures
            r == Self::left(),
    {
        DownloadWorker::Ready
    }

    /// Where a worker stands after a request: in its response, or at its end if it failed.
    pub open spec fn request_result(answered: bool) -> DownloadWorker {
        if answered {
            DownloadWorker::Streaming
        } else {
            DownloadWorker::Finished
        }
    }

    /// Where a worker stands after a request.
    pub fn after_request(answered: bool) -> (r: DownloadWorker)
        ensures
            r == Self::request_result(answered),
    {
        if answered {
            DownloadWorker::Streaming
        } else {
            DownloadWorker::Finished
        }
    }

    /// Where a worker stands after reading a chunk, and how many bytes to count: it goes on with
    /// the response while there is data, and with a new request otherwise.
    pub open spec fn chunk_result(chunk: Chunk) -> (DownloadWorker, u64) {
        match chunk {
            Chunk::Data(n) => (DownloadWorker::Streaming, n),
            Chunk::End => (DownloadWorker::Ready, 0u64),
            Chunk::Failed => (DownloadWorker::Ready, 0u64),
        }
    }

    /// Where a worker stands after reading a chunk, and how many bytes to count.
    pub fn after_chunk(chunk: Chunk) -> (r: (DownloadWorker, u64))
        ensures
            r == Self::chunk_result(chunk),
    {
        match chunk {
            Chunk::Data(n) => (DownloadWorker::Streaming, n),
            Chunk::End => (DownloadWorker::Ready, 0),
            Chunk::Failed => (DownloadWorker::Ready, 0),
        }
    }
}

/// Once the time is up or the cap is reached, a worker asks nothing more of the network, and it
/// stops as soon as it has left its response.
pub proof fn law_closed_run_ends(worker: DownloadWorker, expired: bool, total: u64, max_bytes: u64)
    requires
        expired || total >= max_bytes,
    ensures
        ({
            let open = may_go_on(expired, total, max_bytes);
            &&& worker.step(open) == DownloadStep::Stop || worker.step(open)
                == DownloadStep::LeaveResponse
            &&& DownloadWorker::Ready.step(open) == DownloadStep::Stop
        }),
{
}

/// Whether an upload worker sends a further body.
pub fn upload_goes_on(expired: bool, total: u64, max_bytes: u64) -> (r: bool)
    ensures
        r == may_go_on(expired, total, max_bytes),
{
    !expired && total < max_bytes
}

/// What came of sending a body: how many bytes to count, or the end of the worker unless the
/// answer says success. No answer is no status.
pub open spec fn upload_result(body_len: u64, status: Option<u16>) -> Option<u64> {
    match status {
        Some(code) => if crate::latency::is_success(code) {
            Some(body_len)
        } else {
            None
        },
        None => None,
    }
}

/// What came of sending a body.
pub fn after_upload(body_len: u64, status: Option<u16>) -> (r: Option<u64>)
    ensures
        r == upload_result(body_len, status),
{
    match status {
        Some(code) => if crate::latency::status_is_success(code) {
            Some(body_len)
        } else {
            None
        },
        None => None,
    }
}

/// The workers of a run together: the bytes that they counted, and how many of them are in the
/// middle of a read or an upload that they were allowed to begin.
pub struct Crew {
    pub total: nat,
    pub busy: nat,
}

/// What a worker of a crew does.
pub enum CrewEvent {
    /// It looks whether it may go on, and begins a read or an upload.
    Begin { expired: bool },
    /// It ends one, and counts so many bytes.
    Count(nat),
    /// It ends one without anything to count.
    Fail,
}

/// A crew before its first read or upload.
pub open spec fn fresh_crew() -> Crew {
    Crew { total: 0, busy: 0 }
}

impl Crew {
    /// The crew after a worker did this.
    pub open spec fn after(self, event: CrewEvent) -> Crew {
        match event {
            CrewEvent::Begin { .. } => Crew { busy: self.busy + 1, ..self },
            CrewEvent::Count(n) => Crew { total: self.total + n, busy: (self.busy - 1) as nat },
            CrewEvent::Fail => Crew { busy: (self.busy - 1) as nat, ..self },
        }
    }

    /// Whether a worker may do this: it begins only where it may go on and unless all are busy,
    /// and what is counted at once is at most `most`.
    pub open spec fn allows(self, event: CrewEvent, max_bytes: u64, workers: nat, most: nat) -> bool {
        match event {
            CrewEvent::Begin { expired } => {
                &&& self.total <= u64::MAX
                &&& may_go_on(expired, self.total as u64, max_bytes)
                &&& self.busy < workers
            },
            CrewEvent::Count(n) => self.busy > 0 && n <= most,
            CrewEvent::Fail => self.busy > 0,
        }
    }

    /// The crew after all these events.
    pub open spec fn after_all(self, events: Seq<CrewEvent>) -> Crew
        decreases events.len(),
    {
        if events.len() == 0 {
            self
        } else {
            self.after_all(events.drop_last()).after(events.last())
        }
    }
}

/// What a worker of a crew does when its read brings this chunk.
pub open spec fn chunk_event(chunk: Chunk) -> CrewEvent {
    match chunk {
        Chunk::Data(n) => CrewEvent::Count(n as nat),
        _ => CrewEvent::Fail,
    }
}

/// What a worker of a crew does when its upload was answered so.
pub open spec fn upload_event(body_len: u64, status: Option<u16>) -> CrewEvent {
    match upload_result(body_len, status) {
        Some(n) => CrewEvent::Count(n as nat),
        None => CrewEvent::Fail,
    }
}

/// A download worker whose next step is to read a chunk does what its crew allows, as long as it
/// is not itself among the busy ones.
pub proof fn law_reading_is_allowed(
    crew: Crew,
    worker: DownloadWorker,
    expired: bool,
    max_bytes: u64,
    workers: nat,
    most: nat,
)
    requires
        crew.total <= u64::MAX,
        crew.busy < workers,
        worker.step(may_go_on(expired, crew.total as u64, max_bytes)) == DownloadStep::ReadChunk,
    ensures
        crew.allows(CrewEvent::Begin { expired }, max_bytes, workers, most),
{
}

/// An upload worker that goes on does what its crew allows, as long as it is not itself among
/// the busy ones.
pub proof fn law_uploading_is_allowed(
    crew: Crew,
    expired: bool,
    max_bytes: u64,
    workers: nat,
    most: nat,
)
    requires
        crew.total <= u64::MAX,
        crew.busy < workers,
        may_go_on(expired, crew.total as u64, max_bytes),
    ensures
        crew.allows(CrewEvent::Begin { expired }, max_bytes, workers, most),
{
}

/// What comes of a read is allowed, if the chunk is not larger than `most`, and counts exactly
/// the bytes that the worker counts.
pub proof fn law_read_is_counted(
    crew: Crew,
    chunk: Chunk,
    max_bytes: u64,
    workers: nat,
    most: nat,
)
    requires
        crew.busy > 0,
        DownloadWorker::chunk_result(chunk).1 <= most,
    ensures
        crew.allows(chunk_event(chunk), max_bytes, workers, most),
        crew.after(chunk_event(chunk)).total == crew.total + DownloadWorker::chunk_result(chunk).1,
{
}

/// What comes of an upload is allowed, if the body is not larger than `most`, and counts exactly
/// the bytes that the worker counts.
pub proof fn law_upload_is_counted(
    crew: Crew,
    body_len: u64,
    status: Option<u16>,
    max_bytes: u64,
    workers: nat,
    most: nat,
)
    requires
        crew.busy > 0,
        body_len <= most,
    ensures
        crew.allows(upload_event(body_len, status), max_bytes, workers, most),
        crew.after(upload_event(body_len, status)).total == crew.total + (match upload_result(
            body_len,
            status,
        ) {
            Some(n) => n as nat,
            None => 0,
        }),
{
}

/// Whether each of the events is allowed when it happens, starting from nothing counted.
pub open spec fn allowed_run(
    events: Seq<CrewEvent>,
    max_bytes: u64,
    workers: nat,
    most: nat,
) -> bool
    decreases events.len(),
{
    events.len() == 0 || {
        &&& allowed_run(events.drop_last(), max_bytes, workers, most)
        &&& fresh_crew().after_all(events.drop_last()).allows(
            events.last(),
            max_bytes,
            workers,
            most,
        )
    }
}

proof fn lemma_crew_bound(events: Seq<CrewEvent>, max_bytes: u64, workers: nat, most: nat)
    requires
        allowed_run(events, max_bytes, workers, most),
    ensures
        ({
            let crew = fresh_crew().after_all(events);
            &&& crew.busy <= workers
            &&& max_bytes == 0 ==> crew.total == 0 && crew.busy == 0
            &&& max_bytes > 0 ==> crew.total < max_bytes || crew.total + crew.busy * most
                < max_bytes + workers * most
        }),
    decreases events.len(),
{
    if events.len() > 0 {
        lemma_crew_bound(events.drop_last(), max_bytes, workers, most);
        let before = fresh_crew().after_all(events.drop_last());
        let after = fresh_crew().after_all(events);
        assert(after == before.after(events.last()));
        match events.last() {
            CrewEvent::Begin { .. } => {},
            CrewEvent::Count(n) => {
                assert(before.busy * most == (before.busy - 1) * most + most) by (nonlinear_arith);
                assert(before.busy * most <= workers * most) by (nonlinear_arith)
                    requires
                        before.busy <= workers,
                ;
            },
            CrewEvent::Fail => {
                assert((before.busy - 1) * most <= before.busy * most) by (nonlinear_arith);
            },
        }
    }
}

/// A run exceeds its cap by less than what each of its workers counts at once: what is begun
/// only below the cap can still be counted beyond it, but by every worker only once.
pub proof fn law_cap_overshoot(events: Seq<CrewEvent>, max_bytes: u64, workers: nat, most: nat)
    requires
        allowed_run(events, max_bytes, workers, most),
    ensures
        max_bytes == 0 ==> fresh_crew().after_all(events).total == 0,
        max_bytes > 0 ==> fresh_crew().after_all(events).total < max_bytes + workers * most,
{
    lemma_crew_bound(events, max_bytes, workers, most);
    assert(0 <= workers * most) by (nonlinear_arith);
    let crew = fresh_crew().after_all(events);
    assert(0 <= crew.busy * most) by (nonlinear_arith);
}

/// `rand::RngCore::fill_bytes` of `rand::thread_rng`: overwrites every byte, with what is left to
/// chance.
#[verifier::external_body]
fn fill_random(buffer: &mut Vec<u8>)
    ensures
        final(buffer)@.len() == old(buffer)@.len(),
{
    rand::thread_rng().fill_bytes(buffer);
}

/// The least number of bytes in an uploaded body.
pub const MIN_BODY: usize = 1024;

/// The number of bytes in an uploaded body: the configured one, but at least 1024.
pub open spec fn body_size(chunk_size: usize) -> usize {
    if chunk_size >= MIN_BODY {
        chunk_size
    } else {
        MIN_BODY
    }
}

/// A body to upload: random bytes.
pub fn upload_body(chunk_size: usize) -> (r: Vec<u8>)
    requires
        chunk_size <= isize::MAX,
    ensures
        r@.len() == body_size(chunk_size),
{
    let len: usize = if chunk_size >= MIN_BODY {
        chunk_size
    } else {
        MIN_BODY
    };
    let mut body: Vec<u8> = vec![0u8; len];
    fill_random(&mut body);
    body
}

/// The effective cap is the larger of two numbers: the configured cap and what the floor moves in
/// the time, a bit being an eighth of a byte. Where the latter is too large to be computed, the
/// largest number that can be takes its place.
pub proof fn law_cap_is_the_larger(base_cap_bytes: u64, duration_seconds: u64, floor_mbps: u64)
    ensures
        ({
            let cap = effective_cap(base_cap_bytes, duration_seconds, floor_mbps);
            let floor = if duration_seconds * floor_mbps * 1_000_000 <= u64::MAX {
                duration_seconds * floor_mbps * 125_000
            } else {
                u64::MAX as int / 8
            };
            &&& cap >= base_cap_bytes
            &&& cap >= floor
            &&& cap == base_cap_bytes || cap == floor
        }),
{
    assert(duration_seconds * floor_mbps >= 0) by (nonlinear_arith)
        requires
            duration_seconds >= 0,
            floor_mbps >= 0,
    ;
}

/// A run has a worker even where none is configured, and as many as are configured otherwise.
pub proof fn law_some_worker_runs(concurrency: usize)
    ensures
        workers_for(concurrency) >= 1,
        workers_for(concurrency) == concurrency || concurrency == 0 && workers_for(concurrency) == 1,
{
}

/// A body is the smallest that has both the configured number of bytes and 1024.
pub proof fn law_body_is_large_enough(chunk_size: usize)
    ensures
        body_size(chunk_size) >= chunk_size,
        body_size(chunk_size) >= 1024,
        body_size(chunk_size) == chunk_size || body_size(chunk_size) == 1024,
{
}

/// While the time is not up and the cap is not reached, a worker between two responses sends a
/// request, and one in the middle of a response reads on.
pub proof fn law_open_run_goes_on(expired: bool, total: u64, max_bytes: u64)
    requires
        !expired,
        total < max_bytes,
    ensures
        ({
            let open = may_go_on(expired, total, max_bytes);
            &&& open
            &&& DownloadWorker::Ready.step(open) == DownloadStep::Request
            &&& DownloadWorker::Streaming.step(open) == DownloadStep::ReadChunk
        }),
{
}

/// Nothing but a failed request ends a worker of an open run: whatever a read brings, and after
/// leaving a response too, it goes on; and a request that was answered is followed by reading.
pub proof fn law_only_a_failed_request_ends(chunk: Chunk, answered: bool)
    ensures
        DownloadWorker::chunk_result(chunk).0.step(true) != DownloadStep::Stop,
        DownloadWorker::left().step(true) == DownloadStep::Request,
        DownloadWorker::left().step(false) == DownloadStep::Stop,
        DownloadWorker::request_result(answered).step(true) == if answered {
            DownloadStep::ReadChunk
        } else {
            DownloadStep::Stop
        },
{
}

/// The sum of the numbers.
pub open spec fn sum_of(numbers: Seq<u64>) -> nat
    decreases numbers.len(),
{
    if numbers.len() == 0 {
        0
    } else {
        (numbers[0] + sum_of(numbers.skip(1))) as nat
    }
}

/// Where a worker of an open run stands, and how many bytes it has counted, after it read as many
/// of these chunks as it asks for.
pub open spec fn streamed(worker: DownloadWorker, chunks: Seq<u64>) -> (DownloadWorker, nat)
    decreases chunks.len(),
{
    if chunks.len() == 0 || worker.step(true) != DownloadStep::ReadChunk {
        (worker, 0)
    } else {
        let (next, counted) = DownloadWorker::chunk_result(Chunk::Data(chunks[0]));
        let (end, later) = streamed(next, chunks.skip(1));
        (end, counted as nat + later)
    }
}

/// A worker of an open run reads its response to the end and counts all of it: of a response that
/// delivers these chunks it counts their sum, and it still asks for more; its end, or where it
/// breaks off, counts for nothing and is followed by a new request.
pub proof fn law_response_is_counted_whole(chunks: Seq<u64>)
    ensures
        ({
            let (worker, counted) = streamed(DownloadWorker::request_result(true), chunks);
            &&& counted == sum_of(chunks)
            &&& worker.step(true) == DownloadStep::ReadChunk
        }),
        DownloadWorker::chunk_result(Chunk::End).0.step(true) == DownloadStep::Request,
        DownloadWorker::chunk_result(Chunk::End).1 == 0,
        DownloadWorker::chunk_result(Chunk::Failed).0.step(true) == DownloadStep::Request,
        DownloadWorker::chunk_result(Chunk::Failed).1 == 0,
    decreases chunks.len(),
{
    if chunks.len() > 0 {
        law_response_is_counted_whole(chunks.skip(1));
    }
}

/// How many bytes an upload worker of an open run counts, given how its bodies are answered: it
/// goes on until one of them ends it.
pub open spec fn uploaded(body_len: u64, answers: Seq<Option<u16>>) -> nat
    decreases answers.len(),
{
    if answers.len() == 0 {
        0
    } else {
        match upload_result(body_len, answers[0]) {
            Some(n) => n as nat + uploaded(body_len, answers.skip(1)),
            None => 0,
        }
    }
}

/// Whether a body was answered with a status of the 2xx class.
pub open spec fn accepted(answer: Option<u16>) -> bool {
    answer matches Some(code) && code / 100 == 2
}

/// Every accepted body counts with its whole length, and the first that is not accepted is the
/// last: after `k` accepted bodies the worker has counted `k` times their length, whatever would
/// come behind the one that is refused or not answered.
pub proof fn law_accepted_bodies_count_whole(body_len: u64, answers: Seq<Option<u16>>, k: nat)
    requires
        k <= answers.len(),
        forall|i: int| 0 <= i < k ==> accepted(#[trigger] answers[i]),
        k < answers.len() ==> !accepted(answers[k as int]),
    ensures
        uploaded(body_len, answers) == k * body_len,
        k < answers.len() ==> upload_result(body_len, answers[k as int]) is None,
    decreases answers.len(),
{
    if k > 0 {
        let rest = answers.skip(1);
        assert forall|i: int| 0 <= i < k - 1 implies accepted(#[trigger] rest[i]) by {
            assert(rest[i] == answers[i + 1]);
        }
        law_accepted_bodies_count_whole(body_len, rest, (k - 1) as nat);
        assert(accepted(answers[0]));
        assert(k * body_len == (k - 1) * body_len + body_len) by (nonlinear_arith);
    } else {
        assert(0 * body_len == 0);
    }
}

} // verus!
