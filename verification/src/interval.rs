//! The ticker: a gate that opens once each time a fixed period has passed.
//!
//! An interval measures time in whole nanoseconds since it was made. Its
//! rules are stated over such readings of the clock and a period counted in
//! nanoseconds, so they hold whatever the clock says; the functions that
//! read the clock themselves only hand the reading on.

use std::time::Duration;
use std::time::Instant;
use vstd::prelude::*;

verus! {

/// A moment of the monotonic clock. Nothing is known of what it holds.
#[verifier::external_type_specification]
#[verifier::external_body]
pub struct ExInstant(Instant);

/// The length of a span of time in nanoseconds: what `Duration::as_nanos`
/// returns for it.
pub uninterp spec fn duration_nanos(span: Duration) -> nat;

/// `Duration::as_nanos`: the whole span counted in nanoseconds. The contract
/// only gives that count its name.
pub assume_specification[ Duration::as_nanos ](span: &Duration) -> (nanos: u128)
    ensures
        nanos == duration_nanos(*span),
;

/// `Instant::now`: the present moment. Nothing is claimed of it.
pub assume_specification[ Instant::now ]() -> (moment: Instant)
;

/// `Instant::elapsed`: the time that has passed since the moment. Nothing is
/// claimed of it.
pub assume_specification[ Instant::elapsed ](moment: &Instant) -> (span: Duration)
;

/// The time that has passed between a tick recorded at the reading `at` of
/// the clock and the reading `now`, in nanoseconds: no time at all where the
/// clock reads less than it did at the tick.
pub open spec fn passed(at: nat, now: nat) -> nat {
    if now >= at {
        (now - at) as nat
    } else {
        0
    }
}

/// Whether a poll at `now` reports a tick: one was recorded before, and at
/// least the period has passed since.
pub open spec fn tick_due(last_tick: Option<nat>, period: nat, now: nat) -> bool {
    last_tick matches Some(at) && passed(at, now) >= period
}

/// The tick on record after a poll at `now`: the reading `now` where the
/// poll reports a tick and where none was recorded yet, else the one that
/// was recorded.
pub open spec fn after_poll(last_tick: Option<nat>, period: nat, now: nat) -> Option<nat> {
    if tick_due(last_tick, period, now) || last_tick is None {
        Some(now)
    } else {
        last_tick
    }
}

/// How long a caller at `now` has to wait until a full period has passed
/// since the last tick: not at all where none was recorded.
pub open spec fn wait_left(last_tick: Option<nat>, period: nat, now: nat) -> nat {
    match last_tick {
        Some(at) => if passed(at, now) < period {
            (period - passed(at, now)) as nat
        } else {
            0
        },
        None => 0,
    }
}

/// A recorded reading of the clock, as a number.
pub open spec fn reading(last_tick: Option<u128>) -> Option<nat> {
    match last_tick {
        Some(at) => Some(at as nat),
        None => None,
    }
}

/// Polls a ticker of the given period, in nanoseconds, as of the reading
/// `now` of the clock: says whether a tick is due, and which tick is on
/// record afterwards.
pub fn poll(last_tick: Option<u128>, period: u128, now: u128) -> (out: (bool, Option<u128>))
    ensures
        out.0 == tick_due(reading(last_tick), period as nat, now as nat),
        reading(out.1) == after_poll(reading(last_tick), period as nat, now as nat),
{
    match last_tick {
        Some(at) => {
            let gone: u128 = if now >= at {
                now - at
            } else {
                0
            };
            if gone >= period {
                (true, Some(now))
            } else {
                (false, last_tick)
            }
        },
        None => (false, Some(now)),
    }
}

/// How long a caller at the reading `now` of the clock has to wait until a
/// full period has passed since the last tick, all in nanoseconds.
pub fn wait(last_tick: Option<u128>, period: u128, now: u128) -> (left: u128)
    ensures
        left == wait_left(reading(last_tick), period as nat, now as nat),
{
    match last_tick {
        Some(at) => {
            let gone: u128 = if now >= at {
                now - at
            } else {
                0
            };
            if gone < period {
                period - gone
            } else {
                0
            }
        },
        None => 0,
    }
}

/// What an interval is, to its contracts.
pub struct IntervalView {
    /// The period.
    pub period: Duration,
    /// The reading of the clock at the last tick, if there was one.
    pub last_tick: Option<nat>,
}

impl IntervalView {
    /// Whether a poll at `now` reports a tick: one was recorded before, and
    /// at least the period has passed since.
    pub open spec fn due(self, now: nat) -> bool {
        tick_due(self.last_tick, duration_nanos(self.period), now)
    }

    /// The interval with `now` recorded as its last tick.
    pub open spec fn reset(self, now: nat) -> IntervalView {
        IntervalView { period: self.period, last_tick: Some(now) }
    }

    /// The interval after a poll at `now`: the reading is recorded where the
    /// poll reports a tick and where none was recorded yet.
    pub open spec fn polled(self, now: nat) -> IntervalView {
        IntervalView {
            period: self.period,
            last_tick: after_poll(self.last_tick, duration_nanos(self.period), now),
        }
    }

    /// How long a caller at `now` has to wait until a full period has
    /// passed since the last tick: not at all where none was recorded.
    pub open spec fn remaining(self, now: nat) -> nat {
        wait_left(self.last_tick, duration_nanos(self.period), now)
    }
}

/// The ticker.
pub struct Interval {
    period: Duration,
    origin: Instant,
    last_tick: Option<u128>,
}

impl View for Interval {
    type V = IntervalView;

    closed spec fn view(&self) -> IntervalView {
        IntervalView { period: self.period, last_tick: reading(self.last_tick) }
    }
}

impl Interval {
    /// An interval of the given period on which no tick was recorded yet.
    pub fn new(period: Duration) -> (interval: Interval)
        ensures
            interval@ == (IntervalView { period, last_tick: None }),
    {
        Interval { period, origin: Instant::now(), last_tick: None }
    }

    /// The period.
    pub fn period(&self) -> (period: Duration)
        ensures
            period == self@.period,
    {
        self.period
    }

    /// The reading of the clock at the last tick, if there was one.
    pub fn last_tick(&self) -> (at: Option<u128>)
        ensures
            reading(at) == self@.last_tick,
    {
        self.last_tick
    }

    /// Reads the clock: the nanoseconds since the interval was made.
    fn clock(&self) -> u128 {
        self.origin.elapsed().as_nanos()
    }

    /// Records the reading `now` of the clock as the last tick.
    pub fn reset_last_tick_at(&mut self, now: u128)
        ensures
            final(self)@ == old(self)@.reset(now as nat),
    {
        self.last_tick = Some(now);
    }

    /// Records the present moment as the last tick.
    pub fn reset_last_tick(&mut self)
        ensures
            exists|now: nat| final(self)@ == #[trigger] old(self)@.reset(now),
            final(self)@.period == old(self)@.period,
            final(self)@.last_tick is Some,
    {
        let now: u128 = self.clock();
        self.reset_last_tick_at(now);
        assert(self@ == old(self)@.reset(now as nat));
    }

    /// Polls the interval as of the reading `now` of the clock: reports a
    /// tick where one was recorded before and at least the period has passed
    /// since. Where it reports one, and where none was recorded yet, it
    /// records `now` as the last tick; otherwise it changes nothing.
    pub fn try_tick_at(&mut self, now: u128) -> (fired: bool)
        ensures
            fired == old(self)@.due(now as nat),
            final(self)@ == old(self)@.polled(now as nat),
    {
        let (fired, last_tick) = poll(self.last_tick, self.period.as_nanos(), now);
        self.last_tick = last_tick;
        fired
    }

    /// How long a caller who wants a full period between ticks has to wait
    /// when the clock reads `now`, in nanoseconds.
    pub fn remaining_at(&self, now: u128) -> (left: u128)
        ensures
            left == self@.remaining(now as nat),
    {
        wait(self.last_tick, self.period.as_nanos(), now)
    }

    /// How long a caller who wants a full period between ticks has to wait
    /// as of now, in nanoseconds: never longer than the period, and not at
    /// all before the first tick.
    pub fn remaining(&self) -> (left: u128)
        ensures
            exists|now: nat| left == #[trigger] self@.remaining(now),
            left <= duration_nanos(self@.period),
            self@.last_tick is None ==> left == 0,
    {
        let now: u128 = self.clock();
        let left = self.remaining_at(now);
        assert(left == self@.remaining(now as nat));
        left
    }

    /// Polls the interval as of now, without waiting. The first poll records
    /// the moment and reports no tick. A later one reports a tick where at
    /// least the period has passed since the last recorded moment, and then
    /// records the present one; otherwise it changes nothing.
    pub fn try_tick(&mut self) -> (fired: bool)
        ensures
            exists|now: nat|
                fired == #[trigger] old(self)@.due(now) && final(self)@ == old(self)@.polled(now),
            final(self)@.period == old(self)@.period,
            final(self)@.last_tick is Some,
            old(self)@.last_tick is None ==> !fired,
            !fired && old(self)@.last_tick is Some ==> final(self)@ == old(self)@,
    {
        let now: u128 = self.clock();
        let fired = self.try_tick_at(now);
        assert(fired == old(self)@.due(now as nat) && self@ == old(self)@.polled(now as nat));
        fired
    }
}

/// Once polled, an interval has a tick on record, and a poll never changes
/// the period.
pub proof fn lemma_poll_records(interval: IntervalView, now: nat)
    ensures
        interval.polled(now).last_tick is Some,
        interval.polled(now).period == interval.period,
        !interval.due(now) && interval.last_tick is Some ==> interval.polled(now) == interval,
{
}

/// Two polls at one reading of the clock report at most one tick, where the
/// period is not zero: the second of them reports none.
pub proof fn lemma_one_tick_per_moment(interval: IntervalView, now: nat)
    requires
        duration_nanos(interval.period) > 0,
    ensures
        !(interval.due(now) && interval.polled(now).due(now)),
        !interval.polled(now).due(now),
{
}

/// Right after a poll no tick is due at the same reading of the clock, for
/// any period but zero.
pub proof fn lemma_quiet_after_poll(last_tick: Option<nat>, period: nat, now: nat)
    requires
        period > 0,
    ensures
        !tick_due(after_poll(last_tick, period, now), period, now),
        after_poll(after_poll(last_tick, period, now), period, now) == after_poll(
            last_tick,
            period,
            now,
        ),
{
}

/// With a period of zero every poll but the first reports a tick.
pub proof fn lemma_zero_period_always_due(last_tick: Option<nat>, now: nat)
    ensures
        tick_due(last_tick, 0, now) <==> last_tick is Some,
        tick_due(after_poll(last_tick, 0, now), 0, now),
{
}

/// A poll and the wait agree: a tick is due exactly where a tick is on
/// record and nothing is left to wait. The wait is never longer than the
/// period.
pub proof fn lemma_due_when_nothing_left(last_tick: Option<nat>, period: nat, now: nat)
    ensures
        tick_due(last_tick, period, now) <==> last_tick is Some && wait_left(
            last_tick,
            period,
            now,
        ) == 0,
        wait_left(last_tick, period, now) <= period,
{
}

} // verus!
