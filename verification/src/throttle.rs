//! Rate-limited diagnostic logging.
//!
//! A [`ThrottledLog`] answers "may I emit this diagnostic now?" at most once
//! per configured interval, however often it is asked. The caller supplies
//! the current time in milliseconds; the decision and the state update are
//! pure functions of the previous state and that time, so the behaviour is
//! verified for every clock the caller may have.

use vstd::prelude::*;

verus! {

/// Shared throttle state for a recurring diagnostic message.
///
/// `last_emit_ms` holds the time of the last emitted message, or `None`
/// when nothing has been emitted yet.
pub struct ThrottledLog {
    pub interval_ms: u64,
    pub last_emit_ms: Option<u64>,
}

/// Whether a call at `now_ms` is allowed to emit: always on the first call,
/// afterwards only once the configured interval has fully elapsed.
pub open spec fn spec_should_log(t: ThrottledLog, now_ms: u64) -> bool {
    match t.last_emit_ms {
        Option::None => true,
        Option::Some(last) => now_ms >= last + t.interval_ms,
    }
}

/// The throttle state after a call at `now_ms`: an emitting call records its
/// own time, a silenced call leaves the state untouched.
pub open spec fn spec_after_call(t: ThrottledLog, now_ms: u64) -> ThrottledLog {
    if spec_should_log(t, now_ms) {
        ThrottledLog { interval_ms: t.interval_ms, last_emit_ms: Option::Some(now_ms) }
    } else {
        t
    }
}

impl ThrottledLog {
    /// Creates a throttle that allows one emission per `interval_ms`.
    pub fn new(interval_ms: u64) -> (t: Self)
        ensures
            t.interval_ms == interval_ms,
            t.last_emit_ms is None,
    {
        ThrottledLog { interval_ms, last_emit_ms: Option::None }
    }

    /// Returns `true` if the caller may emit a diagnostic at `now_ms`,
    /// recording the emission time; returns `false` (and changes nothing)
    /// while the interval since the last emission has not yet elapsed.
    pub fn should_log(&mut self, now_ms: u64) -> (r: bool)
        ensures
            r == spec_should_log(*old(self), now_ms),
            *final(self) == spec_after_call(*old(self), now_ms),
    {
        let emit = match self.last_emit_ms {
            Option::None => true,
            Option::Some(last) => now_ms >= last && now_ms - last >= self.interval_ms,
        };
        if emit {
            self.last_emit_ms = Option::Some(now_ms);
        }
        emit
    }
}

/// How many of the calls at `times` (applied in order) are allowed to emit.
pub open spec fn spec_emit_count(t: ThrottledLog, times: Seq<u64>) -> nat
    decreases times.len(),
{
    if times.len() == 0 {
        0
    } else {
        (if spec_should_log(t, times[0]) {
            1nat
        } else {
            0nat
        }) + spec_emit_count(spec_after_call(t, times[0]), times.skip(1))
    }
}

/// While the interval since the last emission has not elapsed, every call is
/// silenced and the state does not move.
pub proof fn lemma_throttle_silenced(t: ThrottledLog, last: u64, now_ms: u64)
    requires
        t.last_emit_ms == Option::Some(last),
        now_ms < last + t.interval_ms,
    ensures
        !spec_should_log(t, now_ms),
        spec_after_call(t, now_ms) == t,
{
}

/// A run of calls that all fall short of the last emission's interval emits
/// nothing at all.
proof fn lemma_throttle_silenced_run(t: ThrottledLog, last: u64, times: Seq<u64>)
    requires
        t.last_emit_ms == Option::Some(last),
        forall|i: int| 0 <= i < times.len() ==> times[i] < last + t.interval_ms,
    ensures
        spec_emit_count(t, times) == 0,
    decreases times.len(),
{
    if times.len() > 0 {
        lemma_throttle_silenced(t, last, times[0]);
        lemma_throttle_silenced_run(t, last, times.skip(1));
    }
}

/// Calling `should_log` any number of times within one interval yields
/// exactly one `true`: the first call emits — on a fresh throttle, or on
/// one whose last emission lies a full interval back — and every later
/// call inside the window started by it is silenced.
pub proof fn lemma_throttle_once_per_interval(t: ThrottledLog, times: Seq<u64>)
    requires
        t.last_emit_ms is None || (t.last_emit_ms matches Some(last) && times[0] >= last
            + t.interval_ms),
        times.len() > 0,
        forall|i: int| 0 <= i < times.len() ==> times[0] <= #[trigger] times[i] < times[0] + t.interval_ms,
    ensures
        spec_emit_count(t, times) == 1,
{
    let after = spec_after_call(t, times[0]);
    assert(spec_should_log(t, times[0]));
    assert(after.last_emit_ms == Option::Some(times[0]));
    assert(forall|i: int| 0 <= i < times.skip(1).len() ==> times.skip(1)[i] == times[i + 1]);
    lemma_throttle_silenced_run(after, times[0], times.skip(1));
}

/// Once the interval since the last emission has elapsed, the next call
/// emits again.
pub proof fn lemma_throttle_resets(t: ThrottledLog, last: u64, now_ms: u64)
    requires
        t.last_emit_ms == Option::Some(last),
        now_ms >= last + t.interval_ms,
    ensures
        spec_should_log(t, now_ms),
{
}

} // verus!
