//! Latency measurement: how many probes are sent, when it is given up, and what comes of the
//! samples.

use crate::error::Error;
use crate::reading::Reading;
use vstd::prelude::*;

verus! {

/// How many samples a measurement needs at least.
pub const MIN_SAMPLES: usize = 3;

/// How many probes are asked for at most.
pub const MAX_PROBES: usize = 6;

/// How many probes are asked for, given the configured number: that number, up to the most.
pub open spec fn probes_for(configured: usize) -> usize {
    if configured <= MAX_PROBES {
        configured
    } else {
        MAX_PROBES
    }
}

/// How many probes are asked for, given the configured number.
pub fn probe_count(configured: usize) -> (r: usize)
    ensures
        r == probes_for(configured),
{
    if configured <= MAX_PROBES {
        configured
    } else {
        MAX_PROBES
    }
}

/// What came of a probe.
#[derive(Debug, Clone, Copy, PartialEq, Eq, Structural)]
pub enum ProbeReply {
    /// There was no answer.
    Failed,
    /// The answer had a status other than success.
    Rejected,
    /// The answer came after this time in ms.
    Answered(Reading),
}

/// Whether an HTTP status says success.
pub open spec fn is_success(status: u16) -> bool {
    200 <= status < 300
}

/// Whether an HTTP status says success.
pub fn status_is_success(status: u16) -> (r: bool)
    ensures
        r == is_success(status),
{
    200 <= status && status < 300
}

/// What came of a probe that was answered with this status after this time.
pub open spec fn reply_of(status: u16, ms: Reading) -> ProbeReply {
    if is_success(status) {
        ProbeReply::Answered(ms)
    } else {
        ProbeReply::Rejected
    }
}

/// What came of a probe that was answered with this status.
pub fn probe_reply(status: u16, ms: Reading) -> (r: ProbeReply)
    ensures
        r == reply_of(status, ms),
{
    if status_is_success(status) {
        ProbeReply::Answered(ms)
    } else {
        ProbeReply::Rejected
    }
}

/// The time of a single probe, which fails unless the status says success.
pub fn probe_latency_once(status: u16, ms: Reading) -> (r: Result<Reading, Error>)
    ensures
        match reply_of(status, ms) {
            ProbeReply::Answered(time) => r matches Ok(found) && found == time,
            _ => r matches Err(e) && e == Error::ProbeRejected,
        },
{
    if status_is_success(status) {
        Ok(ms)
    } else {
        Err(Error::ProbeRejected)
    }
}

/// Whether the display of the progress moves after this reply.
pub open spec fn moves_display(reply: ProbeReply) -> bool {
    reply != ProbeReply::Rejected
}

/// How far a measurement has come.
#[verifier::ext_equal]
pub struct LatencyState {
    /// How many probes are to be sent.
    pub times: nat,
    /// How many were sent.
    pub sent: nat,
    /// The times of those that were answered, in order.
    pub samples: Seq<Reading>,
    /// Whether it was given up.
    pub stopped: bool,
}

/// How many probes are sent when so many are asked for: at least as many as samples are needed.
pub open spec fn probe_times(count: nat) -> nat {
    if count >= MIN_SAMPLES {
        count
    } else {
        MIN_SAMPLES as nat
    }
}

/// A measurement before its first probe.
pub open spec fn started(count: nat) -> LatencyState {
    LatencyState { times: probe_times(count), sent: 0, samples: Seq::empty(), stopped: false }
}

impl LatencyState {
    /// What holds of every measurement at any time.
    pub open spec fn wf(self) -> bool {
        &&& MIN_SAMPLES <= self.times
        &&& self.samples.len() <= self.sent <= self.times
        &&& self.stopped ==> self.samples.len() + (self.times - self.sent) < MIN_SAMPLES
        &&& forall|i: int| 0 <= i < self.samples.len() ==> !(#[trigger] self.samples[i]).is_nan()
    }

    /// Whether no further probe is sent.
    pub open spec fn done(self) -> bool {
        self.sent >= self.times || self.stopped
    }

    /// The measurement after a further probe. It is given up when an unanswered or answered probe
    /// leaves too few to come for the least number of samples; a rejected probe is not a reason
    /// to look.
    pub open spec fn after(self, reply: ProbeReply) -> LatencyState {
        let sent = self.sent + 1;
        let samples = match reply {
            ProbeReply::Answered(ms) => self.samples.push(ms),
            _ => self.samples,
        };
        LatencyState {
            times: self.times,
            sent,
            samples,
            stopped: reply != ProbeReply::Rejected && samples.len() + (self.times - sent)
                < MIN_SAMPLES,
        }
    }

    /// How much of the measurement is made: the percentage of the probes sent, to the nearest
    /// whole number and short of 100.
    pub open spec fn progress(self) -> int {
        let nearest = (200 * self.sent + self.times) as int / (2 * self.times as int);
        if nearest < 99 {
            nearest
        } else {
            99
        }
    }
}

/// A latency measurement.
#[derive(Debug)]
pub struct LatencyRun {
    times: usize,
    sent: usize,
    samples: Vec<Reading>,
    stopped: bool,
}

/// What a measurement found: the samples in ascending order, and the middle one.
#[derive(Debug, PartialEq, Eq)]
pub struct LatencySamples {
    pub ascending: Vec<Reading>,
    pub median: Reading,
}

impl View for LatencyRun {
    type V = LatencyState;

    closed spec fn view(&self) -> LatencyState {
        LatencyState {
            times: self.times as nat,
            sent: self.sent as nat,
            samples: self.samples@,
            stopped: self.stopped,
        }
    }
}

/// The middle one of ascending readings; of two in the middle, the upper one.
pub open spec fn median_of(s: Seq<Reading>) -> Reading {
    s[s.len() as int / 2]
}

/// Whether the readings are in ascending order.
pub open spec fn ascending(s: Seq<Reading>) -> bool {
    forall|i: int, j: int| 0 <= i < j < s.len() ==> s[i].value() <= s[j].value()
}

/// Those of the readings that have this value, in order.
pub open spec fn with_value(s: Seq<Reading>, value: int) -> Seq<Reading> {
    s.filter(|x: Reading| x.value() == value)
}

/// Whether `r` holds the readings of `s` in ascending order, those of equal value in the order in
/// which `s` has them.
pub open spec fn sorts(r: Seq<Reading>, s: Seq<Reading>) -> bool {
    &&& ascending(r)
    &&& r.to_multiset() == s.to_multiset()
    &&& forall|value: int| #[trigger] with_value(r, value) == with_value(s, value)
}

/// Whether `r` is what a measurement found: its samples sorted, and their median, if there are
/// enough.
pub open spec fn latency_outcome(s: LatencyState, r: Result<LatencySamples, Error>) -> bool {
    match r {
        Ok(found) => {
            &&& s.samples.len() >= MIN_SAMPLES
            &&& sorts(found.ascending@, s.samples)
            &&& found.median == median_of(found.ascending@)
        },
        Err(e) => s.samples.len() < MIN_SAMPLES && e == Error::TooFewSamples,
    }
}

impl LatencyRun {
    /// A measurement for which so many probes are asked for.
    pub fn new(count: usize) -> (r: Self)
        ensures
            r@ == started(count as nat),
            r@.wf(),
    {
        let times = if count >= MIN_SAMPLES {
            count
        } else {
            MIN_SAMPLES
        };
        LatencyRun { times, sent: 0, samples: Vec::new(), stopped: false }
    }

    /// Whether a further probe is to be sent.
    pub fn wants_probe(&self) -> (r: bool)
        ensures
            r == !self@.done(),
    {
        self.sent < self.times && !self.stopped
    }

    /// Takes note of what came of a probe, and says whether the display of the progress moves: a
    /// rejected probe leaves it as it is.
    pub fn record(&mut self, reply: ProbeReply) -> (moves: bool)
        requires
            old(self)@.wf(),
            !old(self)@.done(),
            reply matches ProbeReply::Answered(ms) ==> !ms.is_nan(),
        ensures
            final(self)@ == old(self)@.after(reply),
            final(self)@.wf(),
            moves == moves_display(reply),
    {
        let ghost before = self@;
        self.sent = self.sent + 1;
        match reply {
            ProbeReply::Rejected => {
                assert(self@ =~= before.after(reply));
                return false;
            },
            ProbeReply::Answered(ms) => {
                self.samples.push(ms);
            },
            ProbeReply::Failed => {},
        }
        let remaining: usize = self.times - self.sent;
        if self.samples.len() + remaining < MIN_SAMPLES {
            self.stopped = true;
        }
        assert(self@ =~= before.after(reply));
        true
    }

    /// How much of a measurement with as many probes as are asked for at most is made, in percent.
    pub fn percent(&self) -> (r: u64)
        requires
            self@.wf(),
            self@.times <= MAX_PROBES,
        ensures
            r == self@.progress(),
    {
        let nearest: usize = (200 * self.sent + self.times) / (2 * self.times);
        if nearest < 99 {
            nearest as u64
        } else {
            99
        }
    }

    /// What the measurement found, if it has enough samples.
    pub fn finish(self) -> (r: Result<LatencySamples, Error>)
        requires
            self@.wf(),
        ensures
            latency_outcome(self@, r),
    {
        if self.samples.len() < MIN_SAMPLES {
            return Err(Error::TooFewSamples);
        }
        let ascending = sorted(&self.samples);
        proof {
            ascending@.to_multiset_ensures();
            self.samples@.to_multiset_ensures();
        }
        let median = ascending[ascending.len() / 2];
        Ok(LatencySamples { ascending, median })
    }
}

proof fn lemma_insert_keeps_order(s: Seq<Reading>, k: int, x: Reading, value: int)
    requires
        0 <= k <= s.len(),
        forall|i: int| k <= i < s.len() ==> x.value() < (#[trigger] s[i]).value(),
    ensures
        with_value(s.insert(k, x), value) == with_value(s.push(x), value),
{
    let matching = |y: Reading| y.value() == value;
    let front = s.take(k);
    let back = s.skip(k);
    let one = seq![x];
    assert(s.insert(k, x) =~= front + one + back);
    assert(s.push(x) =~= front + back + one);
    Seq::filter_distributes_over_add(front + one, back, matching);
    Seq::filter_distributes_over_add(front, one, matching);
    Seq::filter_distributes_over_add(front + back, one, matching);
    Seq::filter_distributes_over_add(front, back, matching);
    if x.value() == value {
        assert forall|i: int| 0 <= i < back.len() implies !matching(#[trigger] back[i]) by {
            assert(back[i] == s[k + i]);
        }
        back.lemma_all_neg_filter_empty(matching);
    } else {
        one.lemma_all_neg_filter_empty(matching);
    }
}

/// The samples in ascending order.
fn sorted(samples: &Vec<Reading>) -> (r: Vec<Reading>)
    requires
        forall|i: int| 0 <= i < samples@.len() ==> !(#[trigger] samples@[i]).is_nan(),
    ensures
        sorts(r@, samples@),
{
    let mut out: Vec<Reading> = Vec::new();
    let mut n: usize = 0;
    proof {
        assert(samples@.take(0) =~= Seq::<Reading>::empty());
        assert(out@ =~= samples@.take(0));
    }
    while n < samples.len()
        invariant
            n <= samples.len(),
            forall|i: int| 0 <= i < samples@.len() ==> !(#[trigger] samples@[i]).is_nan(),
            sorts(out@, samples@.take(n as int)),
            forall|i: int| 0 <= i < out@.len() ==> !(#[trigger] out@[i]).is_nan(),
        decreases samples.len() - n,
    {
        let x = samples[n];
        let mut k: usize = out.len();
        while k > 0 && !x.ge(&out[k - 1])
            invariant
                k <= out.len(),
                !x.is_nan(),
                forall|i: int| 0 <= i < out@.len() ==> !(#[trigger] out@[i]).is_nan(),
                forall|i: int| k <= i < out@.len() ==> x.value() < (#[trigger] out@[i]).value(),
            decreases k,
        {
            k -= 1;
        }
        let ghost before = out@;
        out.insert(k, x);
        proof {
            before.to_multiset_ensures();
            samples@.take(n as int).to_multiset_ensures();
            out@.to_multiset_ensures();
            assert(out@ == before.insert(k as int, x));
            assert(out@.remove(k as int) =~= before);
            assert(out@.contains(out@[k as int]));
            assert(out@.to_multiset() =~= before.to_multiset().insert(x));
            assert(samples@.take(n + 1) =~= samples@.take(n as int).push(x));
            assert forall|value: int| #[trigger]
                with_value(out@, value) == with_value(samples@.take(n + 1), value) by {
                lemma_insert_keeps_order(before, k as int, x, value);
                assert(with_value(before, value) == with_value(samples@.take(n as int), value));
                assert(before.push(x).drop_last() =~= before);
                assert(samples@.take(n + 1).drop_last() =~= samples@.take(n as int));
                reveal(Seq::filter);
            }
        }
        n += 1;
    }
    assert(samples@.take(samples.len() as int) =~= samples@);
    out
}

impl LatencyState {
    /// The measurement after as many of `replies` as it asks for.
    pub open spec fn played(self, replies: Seq<ProbeReply>) -> LatencyState
        decreases replies.len(),
    {
        if self.done() || replies.len() == 0 {
            self
        } else {
            self.after(replies[0]).played(replies.skip(1))
        }
    }
}

/// The times of the answered probes, in order.
pub open spec fn answers(replies: Seq<ProbeReply>) -> Seq<Reading>
    decreases replies.len(),
{
    if replies.len() == 0 {
        Seq::empty()
    } else {
        match replies[0] {
            ProbeReply::Answered(ms) => seq![ms] + answers(replies.skip(1)),
            _ => answers(replies.skip(1)),
        }
    }
}

proof fn lemma_no_more_answers_than_replies(replies: Seq<ProbeReply>)
    ensures
        answers(replies).len() <= replies.len(),
    decreases replies.len(),
{
    if replies.len() > 0 {
        lemma_no_more_answers_than_replies(replies.skip(1));
    }
}

proof fn lemma_played(s: LatencyState, replies: Seq<ProbeReply>)
    requires
        s.sent + replies.len() == s.times,
        s.stopped ==> s.samples.len() + (s.times - s.sent) < MIN_SAMPLES,
    ensures
        s.played(replies).samples.len() >= MIN_SAMPLES <==> s.samples.len() + answers(replies).len()
            >= MIN_SAMPLES,
        s.samples.len() + answers(replies).len() >= MIN_SAMPLES ==> s.played(replies).samples
            == s.samples + answers(replies),
    decreases replies.len(),
{
    lemma_no_more_answers_than_replies(replies);
    if s.done() || replies.len() == 0 {
        assert(s.samples + Seq::<Reading>::empty() =~= s.samples);
    } else {
        let rest = replies.skip(1);
        let next = s.after(replies[0]);
        lemma_played(next, rest);
        assert(next.samples + answers(rest) =~= s.samples + answers(replies));
    }
}

/// Giving up early never loses a measurement: with the given replies in store, one for each
/// probe, enough samples are taken exactly when enough of the probes would be answered, and then
/// the samples are the times of all that would be.
pub proof fn law_giving_up_loses_nothing(count: nat, replies: Seq<ProbeReply>)
    requires
        replies.len() == probe_times(count),
    ensures
        ({
            let end = started(count).played(replies);
            &&& end.samples.len() >= MIN_SAMPLES <==> answers(replies).len() >= MIN_SAMPLES
            &&& answers(replies).len() >= MIN_SAMPLES ==> end.samples == answers(replies)
        }),
{
    lemma_played(started(count), replies);
    assert(Seq::<Reading>::empty() + answers(replies) =~= answers(replies));
}

/// A measurement that was given up has too few samples, whatever its remaining probes would
/// have brought.
pub proof fn law_given_up_is_hopeless(s: LatencyState, further: Seq<ProbeReply>)
    requires
        s.wf(),
        s.stopped,
        further.len() <= s.times - s.sent,
    ensures
        s.samples.len() + answers(further).len() < MIN_SAMPLES,
{
    lemma_no_more_answers_than_replies(further);
}

/// Every probe brings a measurement closer to its end, and what holds of a measurement goes on
/// holding. An answered probe adds its time behind the others and no other one adds anything.
pub proof fn law_probe_step(s: LatencyState, reply: ProbeReply)
    requires
        s.wf(),
        !s.done(),
        reply matches ProbeReply::Answered(ms) ==> !ms.is_nan(),
    ensures
        s.after(reply).wf(),
        s.after(reply).sent == s.sent + 1,
        s.after(reply).times == s.times,
        reply matches ProbeReply::Answered(ms) ==> s.after(reply).samples.last() == ms
            && s.after(reply).samples.drop_last() == s.samples,
        !(reply is Answered) ==> s.after(reply).samples == s.samples,
{
    if let ProbeReply::Answered(ms) = reply {
        assert(s.samples.push(ms).drop_last() =~= s.samples);
    }
}

/// A measurement is given up exactly when, after a probe that was not rejected, there would be
/// fewer than three samples even if every probe to come were answered.
pub proof fn law_given_up_exactly_when_hopeless(
    s: LatencyState,
    reply: ProbeReply,
    to_come: Seq<ProbeReply>,
)
    requires
        s.wf(),
        !s.done(),
        to_come.len() == s.times - s.sent - 1,
        forall|i: int| 0 <= i < to_come.len() ==> (#[trigger] to_come[i]) is Answered,
    ensures
        s.after(reply).stopped <==> !(reply is Rejected) && s.after(reply).samples.len() + answers(
            to_come,
        ).len() < 3,
{
    lemma_all_answered(to_come);
}

proof fn lemma_all_answered(replies: Seq<ProbeReply>)
    requires
        forall|i: int| 0 <= i < replies.len() ==> (#[trigger] replies[i]) is Answered,
    ensures
        answers(replies).len() == replies.len(),
    decreases replies.len(),
{
    if replies.len() > 0 {
        assert(replies[0] is Answered);
        lemma_all_answered(replies.skip(1));
    }
}

/// A measurement sends as many probes as are asked for, but at least three, unless it is given
/// up; and it asks for the next one as long as it is neither through nor given up.
pub proof fn law_probes_sent(count: nat, s: LatencyState)
    ensures
        started(count).times >= 3,
        started(count).times >= count,
        started(count).times == count || started(count).times == 3,
        started(count).sent == 0 && started(count).samples.len() == 0 && !started(count).done(),
        s.done() <==> s.sent >= s.times || s.stopped,
{
}

/// No more than six probes are asked for, and as many as are configured otherwise.
pub proof fn law_probes_asked_for(configured: usize)
    ensures
        probes_for(configured) <= 6,
        probes_for(configured) <= configured,
        probes_for(configured) == configured || probes_for(configured) == 6,
{
}

/// The progress shown is within half a percent of the share of the probes that were sent, unless
/// that is nearer to 100 than to 98: then it is 99. It never goes back.
pub proof fn law_progress_is_the_share_sent(s: LatencyState)
    requires
        s.wf(),
    ensures
        s.progress() < 99 ==> -(s.times as int) <= 2 * (s.progress() * s.times - 100 * s.sent)
            <= s.times,
        s.progress() >= 99 ==> s.progress() == 99 && 2 * 100 * s.sent >= 197 * s.times,
        s.sent < s.times ==> s.progress() <= (LatencyState {
            sent: s.sent + 1,
            ..s
        }).progress(),
{
    let num = (200 * s.sent + s.times) as int;
    let den = 2 * s.times as int;
    let next = (200 * (s.sent + 1) + s.times) as int;
    let nearest = num / den;
    vstd::arithmetic::div_mod::lemma_fundamental_div_mod(num, den);
    vstd::arithmetic::div_mod::lemma_mod_bound(num, den);
    assert(den * nearest == 2 * (nearest * s.times)) by (nonlinear_arith)
        requires
            den == 2 * s.times,
    ;
    vstd::arithmetic::div_mod::lemma_div_is_ordered(num, next, den);
    if nearest >= 99 {
        assert(nearest * s.times >= 99 * s.times) by (nonlinear_arith)
            requires
                nearest >= 99,
                s.times >= 0,
        ;
    }
}

/// A probe is answered exactly when its status is of the 2xx class, and then its time is the one
/// that was taken; any other status leaves the display of the progress as it is.
pub proof fn law_success_is_2xx(status: u16, ms: Reading)
    ensures
        is_success(status) <==> status / 100 == 2,
        reply_of(status, ms) == ProbeReply::Answered(ms) <==> status / 100 == 2,
        reply_of(status, ms) == ProbeReply::Rejected <==> status / 100 != 2,
        moves_display(reply_of(status, ms)) <==> status / 100 == 2,
        moves_display(ProbeReply::Failed),
{
}

/// The median of ascending samples is one of them, no sample in the lower half is above it, and
/// none in the upper half is below it.
pub proof fn law_median_in_the_middle(samples: Seq<Reading>)
    requires
        samples.len() >= MIN_SAMPLES,
        ascending(samples),
    ensures
        samples.contains(median_of(samples)),
        forall|i: int|
            0 <= i <= samples.len() as int / 2 ==> (#[trigger] samples[i]).value() <= median_of(
                samples,
            ).value(),
        forall|i: int|
            samples.len() as int / 2 <= i < samples.len() ==> median_of(samples).value() <= (
            #[trigger] samples[i]).value(),
{
    assert(samples[samples.len() as int / 2] == median_of(samples));
}

/// Sorting neither loses nor invents a sample, and no sample is above one behind it.
pub proof fn law_sorting_rearranges(r: Seq<Reading>, s: Seq<Reading>, x: Reading)
    requires
        sorts(r, s),
    ensures
        r.len() == s.len(),
        r.to_multiset().count(x) == s.to_multiset().count(x),
        forall|i: int, j: int| 0 <= i < j < r.len() ==> r[i].value() <= r[j].value(),
{
    r.to_multiset_ensures();
    s.to_multiset_ensures();
}

/// A measurement succeeds exactly when at least three probes were answered. It then gives all of
/// their times, and the median is one of them with no more than half of the others on either side.
pub proof fn law_three_samples_are_enough(s: LatencyState, r: Result<LatencySamples, Error>)
    requires
        latency_outcome(s, r),
    ensures
        r is Ok <==> s.samples.len() >= 3,
        r is Err ==> r->Err_0 == Error::TooFewSamples,
        r matches Ok(found) ==> {
            let all = found.ascending@;
            &&& all.to_multiset() == s.samples.to_multiset()
            &&& all.len() == s.samples.len()
            &&& s.samples.contains(found.median)
            &&& forall|i: int|
                0 <= i <= all.len() as int / 2 ==> (#[trigger] all[i]).value()
                    <= found.median.value()
            &&& forall|i: int|
                all.len() as int / 2 <= i < all.len() ==> found.median.value() <= (
                #[trigger] all[i]).value()
        },
{
    if let Ok(found) = r {
        let all = found.ascending@;
        all.to_multiset_ensures();
        s.samples.to_multiset_ensures();
        law_median_in_the_middle(all);
        assert(all.to_multiset().count(found.median) > 0);
        assert(s.samples.contains(found.median));
    }
}

} // verus!
