//! A watch session as a whole, and the laws that hold of it.
//!
//! The model puts the producer task together with what surrounds it: the
//! driver that sleeps and sends on the task's behalf, the relay channel, and
//! a consumer that pulls values and may leave at any moment.
//!
//! The producer moves exactly as `ProducerTask::step` is proved to move.
//! The rest is what the laws take for granted: that the driver reports only
//! what it was suspended on, that the channel is the bounded queue of
//! `RelayModel`, and that the clock does not run backwards. The consumer is
//! free to pull or leave whenever the channel allows it, and a timer may fire
//! early or late.

use vstd::prelude::*;
use crate::producer::{ProducerAction, ProducerEvent, ProducerView};
use crate::relay::RelayModel;
use crate::status::{HealthStatus, StatusSource};
use crate::throttle::lemma_nth_emission;

verus! {

/// What the driver is suspended on, on behalf of the producer.
pub enum Waiting {
    /// A sleep, or the very start of the task: `Wake` comes next.
    Timer,
    /// A send of `status`: `Delivered` or `ReceiverGone` comes next.
    Relay { status: HealthStatus },
    /// Nothing: the task has asked to exit.
    Nothing,
}

/// The state of one watch session.
pub struct SessionModel {
    pub producer: ProducerView,
    pub waiting: Waiting,
    pub relay: RelayModel,
    /// The clock reading at which the session was opened.
    pub opened_at: nat,
    /// The clock reading of the latest move.
    pub clock: nat,
    /// For each value that has left the throttle, in order, the clock reading
    /// at which it left.
    pub emitted_at: Seq<nat>,
    /// How many values left the throttle after the consumer was gone.
    pub emitted_after_leave: nat,
    /// The values that the consumer has pulled, in the order it pulled them.
    pub consumed: Seq<HealthStatus>,
    /// For each of them, the clock reading at which it was pulled.
    pub consumed_at: Seq<nat>,
}

/// What happens in one move of a session.
pub enum Move {
    /// The driver reports `Wake`.
    TimerFires,
    /// The channel takes the value being sent; the driver reports
    /// `Delivered`.
    RelayAccepts,
    /// The send fails; the driver reports `ReceiverGone`.
    RelayRefuses,
    /// The consumer pulls the oldest buffered value.
    ConsumerPulls,
    /// The consumer drops its handle.
    ConsumerLeaves,
}

/// One move of a session, with the clock reading at which it happens.
pub struct SessionStep {
    pub at: nat,
    pub does: Move,
}

impl SessionModel {
    /// A session that was just opened at clock reading `start`.
    pub open spec fn opened(source: StatusSource, interval: nat, capacity: nat, start: nat) -> Self {
        SessionModel {
            producer: ProducerView::starting(source, interval, start),
            waiting: Waiting::Timer,
            relay: RelayModel::opened(capacity),
            opened_at: start,
            clock: start,
            emitted_at: Seq::empty(),
            emitted_after_leave: 0,
            consumed: Seq::empty(),
            consumed_at: Seq::empty(),
        }
    }

    /// The source that the session's values come from.
    pub open spec fn source(self) -> StatusSource {
        self.producer.throttle.source
    }

    /// The least time between two values of the session.
    pub open spec fn interval(self) -> nat {
        self.producer.throttle.interval
    }

    /// How many values have left the throttle.
    pub open spec fn emitted(self) -> nat {
        self.emitted_at.len()
    }

    /// The value that has left the throttle and is not yet in the channel,
    /// if there is one.
    pub open spec fn in_flight(self) -> Seq<HealthStatus> {
        match self.waiting {
            Waiting::Relay { status } => seq![status],
            _ => Seq::empty(),
        }
    }

    /// Whether `step` can happen in this state. The clock never runs
    /// backwards, the driver reports only what it was suspended on, and the
    /// channel and the consumer do what a bounded queue allows.
    pub open spec fn enabled(self, step: SessionStep) -> bool {
        &&& step.at >= self.clock
        &&& match step.does {
            Move::TimerFires => self.waiting is Timer,
            Move::RelayAccepts => self.waiting is Relay && self.relay.has_room(),
            Move::RelayRefuses => self.waiting is Relay && !self.relay.receiver_open,
            Move::ConsumerPulls => self.relay.has_value(),
            Move::ConsumerLeaves => self.relay.receiver_open,
        }
    }

    /// The state after the driver has reported `event` at clock reading
    /// `now` and is suspended on what the producer asked for.
    pub open spec fn reported(self, event: ProducerEvent, now: nat) -> Self {
        let action = self.producer.action(event, now);
        SessionModel {
            producer: self.producer.after(event, now),
            waiting: match action {
                ProducerAction::Sleep { .. } => Waiting::Timer,
                ProducerAction::Send { status } => Waiting::Relay { status },
                ProducerAction::Exit => Waiting::Nothing,
            },
            emitted_at: if action is Send {
                self.emitted_at.push(now)
            } else {
                self.emitted_at
            },
            emitted_after_leave: if action is Send && !self.relay.receiver_open {
                self.emitted_after_leave + 1
            } else {
                self.emitted_after_leave
            },
            ..self
        }
    }

    /// The state after `step`.
    pub open spec fn next(self, step: SessionStep) -> Self {
        let now = SessionModel { clock: step.at, ..self };
        match step.does {
            Move::TimerFires => now.reported(ProducerEvent::Wake, step.at),
            Move::RelayAccepts => SessionModel {
                relay: self.relay.sent(self.in_flight()[0]),
                ..now
            }.reported(ProducerEvent::Delivered, step.at),
            Move::RelayRefuses => now.reported(ProducerEvent::ReceiverGone, step.at),
            Move::ConsumerPulls => SessionModel {
                relay: self.relay.received(),
                consumed: self.consumed.push(self.relay.oldest()),
                consumed_at: self.consumed_at.push(step.at),
                ..now
            },
            Move::ConsumerLeaves => SessionModel { relay: self.relay.dropped(), ..now },
        }
    }

    /// Whether the moves of `steps` can happen one after the other, from
    /// this state on.
    pub open spec fn admits(self, steps: Seq<SessionStep>) -> bool
        decreases steps.len(),
    {
        steps.len() == 0 || (self.admits(steps.drop_last()) && self.run(steps.drop_last()).enabled(
            steps.last(),
        ))
    }

    /// The state after the moves of `steps`, from this state on.
    pub open spec fn run(self, steps: Seq<SessionStep>) -> Self
        decreases steps.len(),
    {
        if steps.len() == 0 {
            self
        } else {
            self.run(steps.drop_last()).next(steps.last())
        }
    }

    /// What holds of the values of a session in every state that it can
    /// reach: where each of them is.
    pub open spec fn accounted(self) -> bool {
        &&& self.relay.buffered.len() <= self.relay.capacity
        &&& self.consumed == self.source().prefix(self.consumed.len())
        &&& self.consumed.len() <= self.emitted()
        &&& self.relay.receiver_open ==> self.consumed + self.relay.buffered + self.in_flight()
            == self.source().prefix(self.emitted())
        &&& !self.relay.receiver_open ==> self.relay.buffered.len() == 0
        &&& self.emitted() + (if self.waiting is Timer {
            1nat
        } else {
            0nat
        }) <= self.consumed.len() + self.relay.capacity + 1
    }

    /// What holds of the producer of a session in every state that it can
    /// reach: it stops only after the consumer has left, and lets at most one
    /// value out of the throttle between the two.
    pub open spec fn winding_down(self) -> bool {
        &&& self.producer.state is Stopped <==> self.waiting is Nothing
        &&& self.producer.state is Stopped ==> !self.relay.receiver_open
        &&& self.relay.receiver_open ==> self.emitted_after_leave == 0
        &&& self.waiting is Timer ==> self.emitted_after_leave == 0
        &&& self.emitted_after_leave <= 1
    }

    /// What holds of the clock readings of a session in every state that it
    /// can reach.
    pub open spec fn timed(self) -> bool {
        &&& self.clock >= self.opened_at
        &&& self.consumed_at.len() == self.consumed.len()
        &&& self.producer.throttle.anchor == if self.emitted() == 0 {
            self.opened_at
        } else {
            self.emitted_at.last()
        }
        &&& forall|k: int| 0 <= k < self.emitted() ==> #[trigger] self.emitted_at[k] <= self.clock
        &&& self.emitted() > 0 ==> self.emitted_at[0] >= self.opened_at + self.interval()
        &&& forall|k: int|
            0 <= k < self.emitted() - 1 ==> #[trigger] self.emitted_at[k + 1] >= self.emitted_at[k]
                + self.interval()
        &&& forall|k: int|
            0 <= k < self.consumed_at.len() ==> #[trigger] self.consumed_at[k]
                >= self.emitted_at[k]
    }

    /// What holds of a session in every state that it can reach.
    pub open spec fn well_behaved(self) -> bool {
        self.accounted() && self.winding_down() && self.timed()
    }
}

/// A session is well behaved when it is opened.
pub proof fn lemma_opened_well_behaved(
    source: StatusSource,
    interval: nat,
    capacity: nat,
    start: nat,
)
    ensures
        SessionModel::opened(source, interval, capacity, start).well_behaved(),
{
    let s = SessionModel::opened(source, interval, capacity, start);
    assert(s.consumed + s.relay.buffered + s.in_flight() =~= source.prefix(0));
    assert(s.consumed =~= source.prefix(0));
}

/// Every move keeps the values of a session accounted for.
proof fn lemma_next_accounted(s: SessionModel, step: SessionStep)
    requires
        s.accounted(),
        s.winding_down(),
        s.enabled(step),
    ensures
        s.next(step).accounted(),
{
    let t = s.next(step);
    let source = s.source();
    let all = s.consumed + s.relay.buffered + s.in_flight();
    match step.does {
        Move::TimerFires => {
            if t.relay.receiver_open {
                assert(source.prefix(s.emitted() + 1) =~= source.prefix(s.emitted()).push(
                    source.output(s.emitted()),
                ));
                assert(t.consumed + t.relay.buffered + t.in_flight() =~= source.prefix(
                    t.emitted(),
                ));
            }
        },
        Move::RelayAccepts => {
            assert(t.consumed + t.relay.buffered =~= all);
            assert(source.prefix(s.emitted() + 1) =~= source.prefix(s.emitted()).push(
                source.output(s.emitted()),
            ));
            assert(t.consumed + t.relay.buffered + t.in_flight() =~= source.prefix(t.emitted()));
        },
        Move::RelayRefuses => {},
        Move::ConsumerPulls => {
            let pulled = s.consumed.len() as int;
            assert(all[pulled] == s.relay.buffered[0]);
            assert(all[pulled] == source.output(pulled as nat));
            assert forall|k: int| 0 <= k < t.consumed.len() implies t.consumed[k]
                == source.prefix(t.consumed.len())[k] by {
                if k < pulled {
                    assert(s.consumed[k] == source.prefix(s.consumed.len())[k]);
                }
            }
            assert(t.consumed =~= source.prefix(t.consumed.len()));
            assert(t.consumed + t.relay.buffered + t.in_flight() =~= all);
            assert(all.len() == s.emitted());
        },
        Move::ConsumerLeaves => {},
    }
}

/// Every move keeps the clock readings of a session in order.
proof fn lemma_next_timed(s: SessionModel, step: SessionStep)
    requires
        s.accounted(),
        s.timed(),
        s.enabled(step),
    ensures
        s.next(step).timed(),
{
    let t = s.next(step);
    assert forall|k: int| 0 <= k < t.emitted() implies #[trigger] t.emitted_at[k] <= t.clock by {
        if k < s.emitted() {
            assert(s.emitted_at[k] <= s.clock);
        }
    }
    assert forall|k: int| 0 <= k < t.emitted() - 1 implies #[trigger] t.emitted_at[k + 1]
        >= t.emitted_at[k] + t.interval() by {
        if k < s.emitted() - 1 {
            assert(s.emitted_at[k + 1] >= s.emitted_at[k] + s.interval());
        }
    }
    assert forall|k: int| 0 <= k < t.consumed_at.len() implies #[trigger] t.consumed_at[k]
        >= t.emitted_at[k] by {
        if k < s.consumed_at.len() {
            assert(s.consumed_at[k] >= s.emitted_at[k]);
        } else {
            assert(s.emitted_at[k] <= s.clock);
        }
    }
}

/// Every move keeps a session well behaved, and leaves alone what it was
/// opened with.
pub proof fn lemma_next_well_behaved(s: SessionModel, step: SessionStep)
    requires
        s.well_behaved(),
        s.enabled(step),
    ensures
        s.next(step).well_behaved(),
        s.next(step).source() == s.source(),
        s.next(step).interval() == s.interval(),
        s.next(step).relay.capacity == s.relay.capacity,
        s.next(step).opened_at == s.opened_at,
{
    lemma_next_accounted(s, step);
    lemma_next_timed(s, step);
}

/// A session is well behaved after any moves that it can make since it was
/// opened.
pub proof fn lemma_run_well_behaved(
    source: StatusSource,
    interval: nat,
    capacity: nat,
    start: nat,
    steps: Seq<SessionStep>,
)
    requires
        SessionModel::opened(source, interval, capacity, start).admits(steps),
    ensures
        ({
            let end = SessionModel::opened(source, interval, capacity, start).run(steps);
            &&& end.well_behaved()
            &&& end.source() == source
            &&& end.interval() == interval
            &&& end.relay.capacity == capacity
            &&& end.opened_at == start
        }),
    decreases steps.len(),
{
    if steps.len() == 0 {
        lemma_opened_well_behaved(source, interval, capacity, start);
    } else {
        lemma_run_well_behaved(source, interval, capacity, start, steps.drop_last());
        lemma_next_well_behaved(
            SessionModel::opened(source, interval, capacity, start).run(steps.drop_last()),
            steps.last(),
        );
    }
}

/// Ordering. Whatever a session has done since it was opened, the values
/// that the consumer has pulled are the first outputs of the status source,
/// as many as it pulled, in the source's order: none was reordered, lost or
/// repeated. While the consumer is there, these, the values that wait in the
/// channel and the one on its way into it are together exactly what has left
/// the throttle.
pub proof fn law_ordering(
    source: StatusSource,
    interval: nat,
    capacity: nat,
    start: nat,
    steps: Seq<SessionStep>,
)
    requires
        SessionModel::opened(source, interval, capacity, start).admits(steps),
    ensures
        ({
            let end = SessionModel::opened(source, interval, capacity, start).run(steps);
            &&& end.consumed == source.prefix(end.consumed.len())
            &&& end.relay.receiver_open ==> end.consumed + end.relay.buffered + end.in_flight()
                == source.prefix(end.emitted())
        }),
{
    lemma_run_well_behaved(source, interval, capacity, start, steps);
}

/// Pacing of a session. Whatever a session has done since it was opened at
/// clock reading `start`, the first value left the throttle no earlier than
/// one interval after `start`, each later one at least an interval after the
/// one before, and the consumer pulled no value before it had left the
/// throttle. So the `n`-th value was in the consumer's hands no earlier than
/// `n` intervals after the start.
pub proof fn law_session_pacing(
    source: StatusSource,
    interval: nat,
    capacity: nat,
    start: nat,
    steps: Seq<SessionStep>,
)
    requires
        SessionModel::opened(source, interval, capacity, start).admits(steps),
    ensures
        ({
            let end = SessionModel::opened(source, interval, capacity, start).run(steps);
            &&& end.consumed_at.len() == end.consumed.len() <= end.emitted_at.len()
            &&& forall|k: int|
                0 <= k < end.emitted_at.len() - 1 ==> #[trigger] end.emitted_at[k + 1]
                    - end.emitted_at[k] >= interval
            &&& forall|k: int|
                0 <= k < end.emitted_at.len() ==> #[trigger] end.emitted_at[k] >= start + (k + 1)
                    * interval
            &&& forall|k: int|
                0 <= k < end.consumed_at.len() ==> #[trigger] end.consumed_at[k]
                    >= end.emitted_at[k] >= start + (k + 1) * interval
        }),
{
    let end = SessionModel::opened(source, interval, capacity, start).run(steps);
    lemma_run_well_behaved(source, interval, capacity, start, steps);
    assert forall|k: int| 0 <= k < end.emitted_at.len() implies #[trigger] end.emitted_at[k]
        >= start + (k + 1) * interval by {
        lemma_nth_emission(end.emitted_at, interval, start, k);
    }
    assert forall|k: int| 0 <= k < end.consumed_at.len() implies #[trigger] end.consumed_at[k]
        >= end.emitted_at[k] >= start + (k + 1) * interval by {
        assert(end.emitted_at[k] >= start + (k + 1) * interval);
    }
}

/// Backpressure. Whatever a session has done since it was opened, its
/// channel holds no more values than its capacity, and no more values have
/// left the throttle than were pulled by the consumer, fit in the channel,
/// and one more. When the channel is full and the producer has its next value
/// in hand, the producer is suspended: the session can move on only by the
/// consumer pulling a value or leaving.
pub proof fn law_backpressure(
    source: StatusSource,
    interval: nat,
    capacity: nat,
    start: nat,
    steps: Seq<SessionStep>,
)
    requires
        SessionModel::opened(source, interval, capacity, start).admits(steps),
    ensures
        ({
            let end = SessionModel::opened(source, interval, capacity, start).run(steps);
            &&& end.relay.buffered.len() <= capacity
            &&& end.emitted() <= end.consumed.len() + capacity + 1
            &&& end.relay.receiver_open && end.relay.buffered.len() == capacity
                && end.waiting is Relay ==> forall|step: SessionStep| #[trigger]
                end.enabled(step) ==> step.does is ConsumerPulls || step.does is ConsumerLeaves
        }),
{
    lemma_run_well_behaved(source, interval, capacity, start, steps);
}

/// Disconnect. Once the consumer has dropped its handle, at most one more
/// value leaves the throttle, which is within the channel's capacity and one;
/// the send that is pending then, or the one of that value, fails, and the
/// producer stops on it. After the producer has stopped the session makes no
/// further move.
pub proof fn law_disconnect(
    source: StatusSource,
    interval: nat,
    capacity: nat,
    start: nat,
    steps: Seq<SessionStep>,
)
    requires
        SessionModel::opened(source, interval, capacity, start).admits(steps),
    ensures
        ({
            let end = SessionModel::opened(source, interval, capacity, start).run(steps);
            &&& end.emitted_after_leave <= 1
            &&& end.emitted_after_leave <= capacity + 1
            &&& end.emitted_after_leave == 1 ==> !(end.waiting is Timer)
            &&& !end.relay.receiver_open && end.waiting is Relay ==> forall|now: nat|
                #![trigger end.next(SessionStep { at: now, does: Move::RelayRefuses })]
                now >= end.clock ==> end.enabled(SessionStep { at: now, does: Move::RelayRefuses })
                    && end.next(
                    SessionStep { at: now, does: Move::RelayRefuses },
                ).producer.state is Stopped
            &&& end.producer.state is Stopped ==> forall|step: SessionStep| !#[trigger] end.enabled(
                step,
            )
        }),
{
    lemma_run_well_behaved(source, interval, capacity, start, steps);
}

/// A move of one of two sessions that are open side by side.
pub enum PairStep {
    First { step: SessionStep },
    Second { step: SessionStep },
}

/// The moves that `steps` holds for the first session, in order.
pub open spec fn first_steps(steps: Seq<PairStep>) -> Seq<SessionStep>
    decreases steps.len(),
{
    if steps.len() == 0 {
        Seq::empty()
    } else {
        match steps.last() {
            PairStep::First { step } => first_steps(steps.drop_last()).push(step),
            PairStep::Second { .. } => first_steps(steps.drop_last()),
        }
    }
}

/// The moves that `steps` holds for the second session, in order.
pub open spec fn second_steps(steps: Seq<PairStep>) -> Seq<SessionStep>
    decreases steps.len(),
{
    if steps.len() == 0 {
        Seq::empty()
    } else {
        match steps.last() {
            PairStep::First { .. } => second_steps(steps.drop_last()),
            PairStep::Second { step } => second_steps(steps.drop_last()).push(step),
        }
    }
}

/// The states of two sessions after the moves of `steps`, each move made by
/// the session it names.
pub open spec fn pair_run(a: SessionModel, b: SessionModel, steps: Seq<PairStep>) -> (
    SessionModel,
    SessionModel,
)
    decreases steps.len(),
{
    if steps.len() == 0 {
        (a, b)
    } else {
        let (a1, b1) = pair_run(a, b, steps.drop_last());
        match steps.last() {
            PairStep::First { step } => (a1.next(step), b1),
            PairStep::Second { step } => (a1, b1.next(step)),
        }
    }
}

/// Whether two sessions side by side can make the moves of `steps` one after
/// the other.
pub open spec fn pair_admits(a: SessionModel, b: SessionModel, steps: Seq<PairStep>) -> bool
    decreases steps.len(),
{
    steps.len() == 0 || (pair_admits(a, b, steps.drop_last()) && match steps.last() {
        PairStep::First { step } => pair_run(a, b, steps.drop_last()).0.enabled(step),
        PairStep::Second { step } => pair_run(a, b, steps.drop_last()).1.enabled(step),
    })
}

/// Independence. Two sessions that are open at the same time share nothing:
/// however their moves interleave, each session ends in the state that its
/// own moves alone lead to, and an interleaving can happen exactly when each
/// session can make its own moves. So neither session blocks or delays the
/// other, and what one emits, and when, does not depend on the other.
pub proof fn law_independence(a: SessionModel, b: SessionModel, steps: Seq<PairStep>)
    ensures
        pair_run(a, b, steps) == (a.run(first_steps(steps)), b.run(second_steps(steps))),
        pair_admits(a, b, steps) <==> a.admits(first_steps(steps)) && b.admits(
            second_steps(steps),
        ),
    decreases steps.len(),
{
    if steps.len() > 0 {
        let before = steps.drop_last();
        law_independence(a, b, before);
        match steps.last() {
            PairStep::First { step } => {
                assert(first_steps(steps).drop_last() =~= first_steps(before));
                assert(first_steps(steps).last() == step);
            },
            PairStep::Second { step } => {
                assert(second_steps(steps).drop_last() =~= second_steps(before));
                assert(second_steps(steps).last() == step);
            },
        }
    }
}

} // verus!
