use vstd::prelude::*;

verus! {

/// The number of seconds that quick launch counts down before it starts the game.
pub const COUNTDOWN_SECONDS: i32 = 5;

/// The quick launch countdown: the seconds left, and whether the user stopped it.
#[derive(Debug, Clone, Copy, PartialEq, Eq, Structural)]
pub struct CountdownState {
    pub remaining_seconds: i32,
    pub cancelled: bool,
}

/// What one second of the countdown gives.
#[derive(Debug, Clone, Copy, PartialEq, Eq, Structural)]
pub enum CountdownProgress {
    /// The countdown was stopped; nothing more happens.
    Cancelled,
    /// These many seconds are left.
    Running(i32),
    /// The time is up: the game starts.
    Complete,
}

/// The countdown after a request to stop it, and whether that request stopped it:
/// a countdown that is already stopped or has run out is left as it is.
pub open spec fn spec_cancel(s: CountdownState) -> (CountdownState, bool) {
    if s.cancelled || s.remaining_seconds <= 0 {
        (s, false)
    } else {
        (CountdownState { cancelled: true, ..s }, true)
    }
}

/// Whether one second can pass without the count leaving the range of `i32`.
pub open spec fn can_tick(s: CountdownState) -> bool {
    s.cancelled || s.remaining_seconds > i32::MIN
}

/// The countdown after one second, and what that second gives.
pub open spec fn spec_tick(s: CountdownState) -> (CountdownState, CountdownProgress) {
    if s.cancelled {
        (s, CountdownProgress::Cancelled)
    } else {
        let remaining = (s.remaining_seconds - 1) as i32;
        let next = CountdownState { remaining_seconds: remaining, ..s };
        if remaining > 0 {
            (next, CountdownProgress::Running(remaining))
        } else {
            (next, CountdownProgress::Complete)
        }
    }
}

/// The countdown after `k` seconds without interruption.
pub open spec fn ticked(s: CountdownState, k: nat) -> CountdownState
    decreases k,
{
    if k == 0 {
        s
    } else {
        spec_tick(ticked(s, (k - 1) as nat)).0
    }
}

/// What the `k`-th second of an uninterrupted countdown gives (`k >= 1`).
pub open spec fn progress_at(s: CountdownState, k: nat) -> CountdownProgress
    recommends
        k >= 1,
{
    spec_tick(ticked(s, (k - 1) as nat)).1
}

impl CountdownState {
    /// A countdown of `remaining_seconds` that is running.
    pub fn new(remaining_seconds: i32) -> (s: Self)
        ensures
            s.remaining_seconds == remaining_seconds,
            !s.cancelled,
    {
        CountdownState { remaining_seconds, cancelled: false }
    }

    /// The seconds left.
    pub fn remaining_seconds(&self) -> (r: i32)
        ensures
            r == self.remaining_seconds,
    {
        self.remaining_seconds
    }

    /// Whether the countdown was stopped.
    pub fn is_cancelled(&self) -> (c: bool)
        ensures
            c == self.cancelled,
    {
        self.cancelled
    }

    /// Stops the countdown, unless it is already stopped or has run out;
    /// returns whether it stopped it.
    pub fn cancel(&mut self) -> (stopped: bool)
        ensures
            (*final(self), stopped) == spec_cancel(*old(self)),
    {
        if self.cancelled || self.remaining_seconds <= 0 {
            return false;
        }
        self.cancelled = true;
        true
    }

    /// Lets one second pass.
    pub fn tick(&mut self) -> (progress: CountdownProgress)
        requires
            can_tick(*old(self)),
        ensures
            (*final(self), progress) == spec_tick(*old(self)),
    {
        if self.cancelled {
            return CountdownProgress::Cancelled;
        }
        self.remaining_seconds = self.remaining_seconds - 1;
        if self.remaining_seconds > 0 {
            CountdownProgress::Running(self.remaining_seconds)
        } else {
            CountdownProgress::Complete
        }
    }
}

/// `k` uninterrupted seconds of a countdown started at `n` leave `n - k` seconds.
proof fn lemma_ticked_remaining(n: i32, k: nat)
    requires
        k <= n,
    ensures
        ticked(CountdownState { remaining_seconds: n, cancelled: false }, k) == (CountdownState {
            remaining_seconds: (n - k) as i32,
            cancelled: false,
        }),
    decreases k,
{
    if k > 0 {
        lemma_ticked_remaining(n, (k - 1) as nat);
    }
}

/// A countdown started at `n` seconds counts down one second at a time: its
/// `k`-th second reports `n - k` seconds left while time remains, and its
/// `n`-th second completes it.
pub proof fn lemma_countdown_runs_down(n: i32, k: nat)
    requires
        1 <= k <= n,
    ensures
        progress_at(CountdownState { remaining_seconds: n, cancelled: false }, k) == if k < n {
            CountdownProgress::Running((n - k) as i32)
        } else {
            CountdownProgress::Complete
        },
{
    lemma_ticked_remaining(n, (k - 1) as nat);
}

/// A stopped countdown stays stopped and reports nothing but that it was stopped,
/// however many seconds pass.
pub proof fn lemma_cancelled_countdown_stays_cancelled(s: CountdownState, k: nat)
    requires
        s.cancelled,
    ensures
        ticked(s, k) == s,
        k >= 1 ==> progress_at(s, k) == CountdownProgress::Cancelled,
    decreases k,
{
    if k > 0 {
        lemma_cancelled_countdown_stays_cancelled(s, (k - 1) as nat);
    }
}

/// A countdown is stopped at most once: a second request to stop it stops nothing.
pub proof fn lemma_cancel_succeeds_at_most_once(s: CountdownState)
    ensures
        !spec_cancel(spec_cancel(s).0).1,
        spec_cancel(spec_cancel(s).0).0 == spec_cancel(s).0,
{
}

} // verus!
