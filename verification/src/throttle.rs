//! The throttle stage: a pull-based pacing of the status source.
//!
//! A throttle never waits by itself. It is asked, with the current reading of
//! a millisecond clock, whether the next value may leave. If so it hands the
//! value out and measures the next interval from that reading; if not it says
//! how long is left, and the caller suspends for that long before asking
//! again.

use vstd::prelude::*;
use crate::status::{HealthStatus, StatusSource};

verus! {

/// What a throttle answers when it is polled.
#[derive(Clone, Copy, Debug, PartialEq, Eq, Structural)]
pub enum Paced {
    /// The interval has elapsed: here is the next value.
    Ready { status: HealthStatus },
    /// The interval has not elapsed: ask again in `wait_ms` milliseconds.
    Pending { wait_ms: u64 },
}

/// A number of milliseconds as a `u64`, the largest one standing for
/// everything beyond it.
pub open spec fn clamp_ms(ms: nat) -> u64 {
    if ms <= u64::MAX {
        ms as u64
    } else {
        u64::MAX
    }
}

/// The mathematical state of a throttle.
pub struct ThrottleView {
    /// The source whose values are paced.
    pub source: StatusSource,
    /// The least time between two values, in milliseconds.
    pub interval: nat,
    /// The clock reading from which the running interval is measured: the
    /// start of the stream, or the reading at which the last value left.
    pub anchor: nat,
}

impl ThrottleView {
    /// A throttle over `source` whose stream starts at clock reading `start`.
    pub open spec fn starting(source: StatusSource, interval: nat, start: nat) -> Self {
        ThrottleView { source, interval, anchor: start }
    }

    /// The earliest clock reading at which the next value may leave.
    pub open spec fn next_allowed(self) -> nat {
        self.anchor + self.interval
    }

    /// Whether a poll at clock reading `now` hands out a value.
    pub open spec fn ready(self, now: nat) -> bool {
        now >= self.next_allowed()
    }

    /// How long after `now` the next value may leave; zero once it may.
    pub open spec fn remaining(self, now: nat) -> nat {
        if self.ready(now) {
            0
        } else {
            (self.next_allowed() - now) as nat
        }
    }

    /// The answer to a poll at clock reading `now`.
    pub open spec fn answer(self, now: nat) -> Paced {
        if self.ready(now) {
            Paced::Ready { status: self.source.status }
        } else {
            Paced::Pending { wait_ms: clamp_ms(self.remaining(now)) }
        }
    }

    /// The state after a poll at clock reading `now`: a value that leaves
    /// restarts the interval at `now`, a refusal changes nothing.
    pub open spec fn after_poll(self, now: nat) -> Self {
        if self.ready(now) {
            ThrottleView { anchor: now, ..self }
        } else {
            self
        }
    }

    /// The clock readings, among `polls` in order, at which a value leaves
    /// a throttle that starts in this state.
    pub open spec fn emissions(self, polls: Seq<nat>) -> Seq<nat>
        decreases polls.len(),
    {
        if polls.len() == 0 {
            Seq::empty()
        } else {
            let later = self.after_poll(polls[0]).emissions(polls.drop_first());
            if self.ready(polls[0]) {
                seq![polls[0]] + later
            } else {
                later
            }
        }
    }
}

/// A status source slowed down to one value per interval.
#[derive(Clone, Copy, Debug, PartialEq, Eq)]
pub struct Throttle {
    source: StatusSource,
    interval_ms: u64,
    anchor_ms: u64,
}

impl View for Throttle {
    type V = ThrottleView;

    closed spec fn view(&self) -> ThrottleView {
        ThrottleView {
            source: self.source,
            interval: self.interval_ms as nat,
            anchor: self.anchor_ms as nat,
        }
    }
}

impl Throttle {
    /// A throttle over `source` that lets one value through every
    /// `interval_ms` milliseconds, the first one `interval_ms` after
    /// `start_ms`, the clock reading at which the stream starts.
    pub fn new(source: StatusSource, interval_ms: u64, start_ms: u64) -> (throttle: Self)
        ensures
            throttle@ == ThrottleView::starting(source, interval_ms as nat, start_ms as nat),
    {
        Throttle { source, interval_ms, anchor_ms: start_ms }
    }

    /// The least time between two values, in milliseconds.
    pub fn interval_ms(&self) -> (interval: u64)
        ensures
            interval == self@.interval,
    {
        self.interval_ms
    }

    /// Asks for the next value at clock reading `now_ms`.
    ///
    /// The value leaves exactly when a whole interval lies between the
    /// anchor and `now_ms`; the interval then restarts at `now_ms`, however
    /// late the poll came. Otherwise the throttle is left as it was and the
    /// answer carries the time still to wait.
    pub fn poll(&mut self, now_ms: u64) -> (paced: Paced)
        ensures
            paced == old(self)@.answer(now_ms as nat),
            final(self)@ == old(self)@.after_poll(now_ms as nat),
    {
        if now_ms >= self.anchor_ms {
            let elapsed: u64 = now_ms - self.anchor_ms;
            if elapsed >= self.interval_ms {
                self.anchor_ms = now_ms;
                Paced::Ready { status: self.source.next() }
            } else {
                Paced::Pending { wait_ms: self.interval_ms - elapsed }
            }
        } else {
            let behind: u64 = self.anchor_ms - now_ms;
            Paced::Pending { wait_ms: self.interval_ms.saturating_add(behind) }
        }
    }
}

/// From any state on, the first value leaves no earlier than the state's
/// deadline, and each later one at least an interval after the one before.
pub proof fn lemma_emissions_spaced(throttle: ThrottleView, polls: Seq<nat>)
    ensures
        throttle.emissions(polls).len() > 0 ==> throttle.emissions(polls)[0]
            >= throttle.next_allowed(),
        forall|k: int|
            0 <= k < throttle.emissions(polls).len() - 1 ==> #[trigger] throttle.emissions(
                polls,
            )[k + 1] >= throttle.emissions(polls)[k] + throttle.interval,
    decreases polls.len(),
{
    if polls.len() > 0 {
        let next = throttle.after_poll(polls[0]);
        let later = next.emissions(polls.drop_first());
        lemma_emissions_spaced(next, polls.drop_first());
        if throttle.ready(polls[0]) {
            let all = throttle.emissions(polls);
            assert(all == seq![polls[0]] + later);
            assert forall|k: int| 0 <= k < all.len() - 1 implies #[trigger] all[k + 1] >= all[k]
                + throttle.interval by {
                if k > 0 {
                    assert(all[k] == later[k - 1]);
                    assert(all[k + 1] == later[k - 1 + 1]);
                }
            }
        }
    }
}

/// Pacing. Let a stream start at clock reading `start` with interval
/// `interval`, and let it be polled at the readings `polls`, whatever they
/// are. Then the first value leaves the throttle no earlier than one interval
/// after the start, consecutive values leave at least one interval apart, and
/// so the `n`-th value leaves no earlier than `n` intervals after the start.
pub proof fn law_pacing(source: StatusSource, interval: nat, start: nat, polls: Seq<nat>)
    ensures
        ({
            let times = ThrottleView::starting(source, interval, start).emissions(polls);
            &&& times.len() > 0 ==> times[0] >= start + interval
            &&& forall|k: int| 0 <= k < times.len() - 1 ==> #[trigger] times[k + 1] - times[k] >= interval
            &&& forall|k: int| 0 <= k < times.len() ==> #[trigger] times[k] >= start + (k + 1) * interval
        }),
{
    let throttle = ThrottleView::starting(source, interval, start);
    let times = throttle.emissions(polls);
    lemma_emissions_spaced(throttle, polls);
    assert forall|k: int| 0 <= k < times.len() implies #[trigger] times[k] >= start + (k + 1)
        * interval by {
        lemma_nth_emission(times, interval, start, k);
    }
}

/// In a sequence of times that starts an interval after `start` and keeps
/// an interval between neighbours, the time at index `k` lies `k + 1`
/// intervals after `start` or later.
pub proof fn lemma_nth_emission(times: Seq<nat>, interval: nat, start: nat, k: int)
    requires
        0 <= k < times.len(),
        times[0] >= start + interval,
        forall|j: int| 0 <= j < times.len() - 1 ==> #[trigger] times[j + 1] >= times[j] + interval,
    ensures
        times[k] >= start + (k + 1) * interval,
    decreases k,
{
    if k > 0 {
        lemma_nth_emission(times, interval, start, k - 1);
        assert(times[k - 1 + 1] >= times[k - 1] + interval);
        assert((k + 1) * interval == k * interval + interval) by (nonlinear_arith);
    } else {
        assert((0 + 1) * interval == interval) by (nonlinear_arith);
    }
}

} // verus!
