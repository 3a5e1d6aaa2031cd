use vstd::prelude::*;

verus! {

/// The number of echo requests in one round of measuring a region's ping.
pub const PING_ATTEMPTS: u32 = 30;

/// The pause between two echo requests of a round, in milliseconds.
pub const PING_ATTEMPT_INTERVAL_MS: u64 = 500;

/// A running average is reported after every this many replies.
pub const PING_REPORT_EVERY: usize = 3;

/// How long to wait for each echo reply, in seconds.
pub const PING_TIMEOUT_SECS: u64 = 2;

/// The number of payload bytes in each echo request.
pub const PING_PAYLOAD_LEN: usize = 56;

/// The sum of the samples.
pub open spec fn seq_sum(s: Seq<u64>) -> nat
    decreases s.len(),
{
    if s.len() == 0 {
        0
    } else {
        seq_sum(s.drop_last()) + s.last() as nat
    }
}

/// The mean of the samples, rounded down.
pub open spec fn spec_mean(s: Seq<u64>) -> nat
    recommends
        s.len() > 0,
{
    seq_sum(s) / s.len()
}

proof fn lemma_sum_bounds(s: Seq<u64>, lo: u64, hi: u64)
    requires
        forall|i: int| 0 <= i < s.len() ==> lo <= #[trigger] s[i] <= hi,
    ensures
        s.len() * lo <= seq_sum(s) <= s.len() * hi,
    decreases s.len(),
{
    if s.len() > 0 {
        let t = s.drop_last();
        assert forall|i: int| 0 <= i < t.len() implies lo <= #[trigger] t[i] <= hi by {
            assert(t[i] == s[i]);
        }
        lemma_sum_bounds(t, lo, hi);
        let last = s[s.len() - 1];
        assert(lo <= last <= hi);
        assert(seq_sum(s) == seq_sum(t) + last);
        let n = t.len();
        let total = seq_sum(t);
        assert((n + 1) * lo <= total + last <= (n + 1) * hi) by (nonlinear_arith)
            requires
                n * lo <= total <= n * hi,
                lo <= last <= hi,
        ;
        assert(s.len() == n + 1);
    } else {
        let n = s.len();
        assert(n * lo == 0 && n * hi == 0) by (nonlinear_arith)
            requires
                n == 0,
        ;
    }
}

/// The average round trip of the echo replies that came back, in nanoseconds,
/// rounded down as dividing a `Duration` is; none when no reply came back.
pub fn average_ping(samples_nanos: &Vec<u64>) -> (average: Option<u64>)
    ensures
        match average {
            Some(avg) => samples_nanos.len() > 0 && avg == spec_mean(samples_nanos@),
            None => samples_nanos.len() == 0,
        },
        average matches Some(avg) ==> avg * samples_nanos.len() <= total_of(samples_nanos@) < (
        avg + 1) * samples_nanos.len(),
{
    let n = samples_nanos.len();
    if n == 0 {
        return None;
    }
    proof {
        lemma_mean_is_average_of_every_reply(samples_nanos@);
    }
    let mut total: u128 = 0;
    let mut i: usize = 0;
    while i < n
        invariant
            n == samples_nanos.len(),
            i <= n,
            total == seq_sum(samples_nanos@.take(i as int)),
            total <= i * 0xffff_ffff_ffff_ffffu128,
        decreases n - i,
    {
        assert(samples_nanos@.take(i + 1).drop_last() =~= samples_nanos@.take(i as int));
        assert(total + samples_nanos@[i as int] <= (i + 1) * 0xffff_ffff_ffff_ffffu128) by (
        nonlinear_arith)
            requires
                total <= i * 0xffff_ffff_ffff_ffffu128,
                samples_nanos@[i as int] <= 0xffff_ffff_ffff_ffffu64,
        ;
        assert((i + 1) * 0xffff_ffff_ffff_ffffu128 <= 0xffff_ffff_ffff_ffffu128
            * 0xffff_ffff_ffff_ffffu128) by (nonlinear_arith)
            requires
                i + 1 <= 0xffff_ffff_ffff_ffffu128,
        ;
        total = total + samples_nanos[i] as u128;
        i = i + 1;
    }
    assert(samples_nanos@.take(n as int) =~= samples_nanos@);
    let avg = total / (n as u128);
    assert(avg <= 0xffff_ffff_ffff_ffffu128) by (nonlinear_arith)
        requires
            total <= n * 0xffff_ffff_ffff_ffffu128,
            n >= 1,
            avg == total / (n as u128),
    ;
    Some(avg as u64)
}

/// The average ping lies between the fastest and the slowest reply.
pub proof fn lemma_average_between_extremes(s: Seq<u64>, lo: u64, hi: u64)
    requires
        s.len() > 0,
        forall|i: int| 0 <= i < s.len() ==> lo <= #[trigger] s[i] <= hi,
    ensures
        lo <= spec_mean(s) <= hi,
{
    lemma_sum_bounds(s, lo, hi);
    let n = s.len();
    let t = seq_sum(s);
    assert(lo <= t / n <= hi) by (nonlinear_arith)
        requires
            n > 0,
            n * lo <= t <= n * hi,
    ;
}

/// What a round of ping measurement reports after an echo request.
#[derive(Debug, Clone, Copy, PartialEq, Eq, Structural)]
pub enum PingReport {
    /// Nothing, this time.
    Quiet,
    /// The average round trip of the replies so far, in nanoseconds.
    Average(u64),
    /// The round ended without a single reply.
    Unreachable,
}

/// One round of measuring a region's ping: the number of echo requests sent
/// so far and the round trips, in nanoseconds, of the replies that came back.
#[derive(Debug)]
pub struct PingSampler {
    pub attempts: u32,
    pub samples_nanos: Vec<u64>,
}

/// What the round reports after an echo request, given the requests sent and
/// the replies received once it is counted.
pub open spec fn spec_report(attempts: nat, samples: Seq<u64>, replied: bool) -> PingReport {
    if attempts >= PING_ATTEMPTS {
        if samples.len() == 0 {
            PingReport::Unreachable
        } else {
            PingReport::Average(spec_mean(samples) as u64)
        }
    } else if replied && samples.len() % (PING_REPORT_EVERY as nat) == 0 {
        PingReport::Average(spec_mean(samples) as u64)
    } else {
        PingReport::Quiet
    }
}

impl PingSampler {
    /// A round in which nothing was sent yet.
    pub fn new() -> (sampler: Self)
        ensures
            sampler.attempts == 0,
            sampler.samples_nanos@ == Seq::<u64>::empty(),
    {
        PingSampler { attempts: 0, samples_nanos: Vec::new() }
    }

    /// Whether every echo request of the round was sent.
    pub fn is_finished(&self) -> (finished: bool)
        ensures
            finished == (self.attempts >= PING_ATTEMPTS),
    {
        self.attempts >= PING_ATTEMPTS
    }

    /// Counts an echo request and its reply's round trip, if a reply came back,
    /// and says what to report: the running average after every third reply,
    /// and when the round is over its final average, or that no reply came.
    pub fn record(&mut self, reply_nanos: Option<u64>) -> (report: PingReport)
        requires
            old(self).attempts < PING_ATTEMPTS,
        ensures
            final(self).attempts == old(self).attempts + 1,
            final(self).samples_nanos@ == match reply_nanos {
                Some(r) => old(self).samples_nanos@.push(r),
                None => old(self).samples_nanos@,
            },
            report == spec_report(
                final(self).attempts as nat,
                final(self).samples_nanos@,
                reply_nanos is Some,
            ),
    {
        self.attempts = self.attempts + 1;
        let replied = match reply_nanos {
            Some(r) => {
                self.samples_nanos.push(r);
                true
            },
            None => false,
        };
        let finished = self.attempts >= PING_ATTEMPTS;
        if finished || (replied && self.samples_nanos.len() % PING_REPORT_EVERY == 0) {
            match average_ping(&self.samples_nanos) {
                Some(avg) => PingReport::Average(avg),
                None => PingReport::Unreachable,
            }
        } else {
            PingReport::Quiet
        }
    }
}

/// Every average that a round reports lies between the fastest and the
/// slowest reply received so far.
pub proof fn lemma_reported_average_between_replies(
    attempts: nat,
    samples: Seq<u64>,
    replied: bool,
    lo: u64,
    hi: u64,
)
    requires
        forall|i: int| 0 <= i < samples.len() ==> lo <= #[trigger] samples[i] <= hi,
        replied ==> samples.len() > 0,
    ensures
        spec_report(attempts, samples, replied) matches PingReport::Average(avg) ==> lo <= avg
            <= hi,
{
    if samples.len() > 0 {
        lemma_average_between_extremes(samples, lo, hi);
        assert(spec_mean(samples) as u64 == spec_mean(samples));
    }
}

/// A round of `PING_ATTEMPTS` requests ends with exactly one final report:
/// the average when some reply came back, and `Unreachable` otherwise.
pub proof fn lemma_round_ends_with_final_report(samples: Seq<u64>, replied: bool)
    ensures
        samples.len() == 0 ==> spec_report(PING_ATTEMPTS as nat, samples, replied)
            == PingReport::Unreachable,
        samples.len() > 0 ==> spec_report(PING_ATTEMPTS as nat, samples, replied)
            == PingReport::Average(spec_mean(samples) as u64),
{
}

/// The total of the samples, added up from the first one.
pub open spec fn total_of(s: Seq<u64>) -> nat
    decreases s.len(),
{
    if s.len() == 0 {
        0
    } else {
        s[0] as nat + total_of(s.drop_first())
    }
}

proof fn lemma_total_of_last(s: Seq<u64>)
    requires
        s.len() > 0,
    ensures
        total_of(s) == total_of(s.drop_last()) + s.last(),
    decreases s.len(),
{
    if s.len() > 1 {
        let t = s.drop_first();
        lemma_total_of_last(t);
        let u = s.drop_last();
        assert(t.drop_last() =~= u.drop_first());
        assert(u[0] == s[0]);
        assert(t.last() == s.last());
        assert(total_of(s) == s[0] as nat + total_of(t));
        assert(total_of(u) == u[0] as nat + total_of(u.drop_first()));
    } else {
        assert(s.drop_first().len() == 0);
        assert(s.drop_last().len() == 0);
        assert(total_of(s.drop_first()) == 0);
        assert(total_of(s.drop_last()) == 0);
        assert(total_of(s) == s[0] as nat + total_of(s.drop_first()));
    }
}

proof fn lemma_sums_agree(s: Seq<u64>)
    ensures
        seq_sum(s) == total_of(s),
    decreases s.len(),
{
    if s.len() > 0 {
        lemma_sums_agree(s.drop_last());
        lemma_total_of_last(s);
    }
}

/// The average is taken over every reply: times the number of replies it
/// makes up their whole total, short of less than one nanosecond per reply.
pub proof fn lemma_mean_is_average_of_every_reply(s: Seq<u64>)
    requires
        s.len() > 0,
    ensures
        spec_mean(s) * s.len() <= total_of(s) < (spec_mean(s) + 1) * s.len(),
{
    lemma_sums_agree(s);
    let n = s.len();
    let t = seq_sum(s);
    assert((t / n) * n <= t < (t / n + 1) * n) by (nonlinear_arith)
        requires
            n > 0,
    ;
}

/// Every average that a round reports, the final one included, is taken over
/// all the replies received so far.
pub proof fn lemma_reported_average_covers_every_reply(
    attempts: nat,
    samples: Seq<u64>,
    replied: bool,
)
    requires
        replied ==> samples.len() > 0,
    ensures
        spec_report(attempts, samples, replied) matches PingReport::Average(avg) ==> samples.len()
            > 0 && avg * samples.len() <= total_of(samples) < (avg + 1) * samples.len(),
{
    if samples.len() > 0 {
        lemma_mean_is_average_of_every_reply(samples);
        let hi: u64 = 0xffff_ffff_ffff_ffff;
        assert forall|i: int| 0 <= i < samples.len() implies 0 <= #[trigger] samples[i] <= hi by {}
        lemma_average_between_extremes(samples, 0, hi);
        assert(spec_mean(samples) as u64 == spec_mean(samples));
    }
}

} // verus!
