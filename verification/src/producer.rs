//! The producer task of a watch session, as a state machine.
//!
//! The task pulls one paced value after another and hands each to the relay
//! channel, until the channel reports that its receiving side is gone. What
//! has to suspend is not done here: every step returns the action that the
//! driver must perform, and the driver comes back with the event that ended
//! it.

use vstd::prelude::*;
use crate::status::{HealthStatus, StatusSource};
use crate::throttle::{Paced, Throttle, ThrottleView};

verus! {

/// The two states of a producer task. There is no way back from `Stopped`.
#[derive(Clone, Copy, Debug, PartialEq, Eq, Structural)]
pub enum ProducerState {
    Running,
    Stopped,
}

/// What the driver reports to the task.
#[derive(Clone, Copy, Debug, PartialEq, Eq, Structural)]
pub enum ProducerEvent {
    /// The task was just started, or the sleep it asked for is over.
    Wake,
    /// The relay channel has taken the value that the task asked to send.
    Delivered,
    /// The receiving side of the relay channel is gone.
    ReceiverGone,
}

/// What the task asks the driver to do next.
#[derive(Clone, Copy, Debug, PartialEq, Eq, Structural)]
pub enum ProducerAction {
    /// Suspend for `wait_ms` milliseconds, then report `Wake`.
    Sleep { wait_ms: u64 },
    /// Send `status` into the relay channel, suspending while it is full,
    /// then report `Delivered`, or `ReceiverGone` if the send failed.
    Send { status: HealthStatus },
    /// The task is over: release it and report nothing more.
    Exit,
}

/// The mathematical state of a producer task.
pub struct ProducerView {
    pub state: ProducerState,
    pub throttle: ThrottleView,
}

impl ProducerView {
    /// A running task over `source` whose stream starts at clock reading
    /// `start`.
    pub open spec fn starting(source: StatusSource, interval: nat, start: nat) -> Self {
        ProducerView {
            state: ProducerState::Running,
            throttle: ThrottleView::starting(source, interval, start),
        }
    }

    /// Whether the task goes on after `event`: it does while it is running
    /// and the receiving side is still there.
    pub open spec fn goes_on(self, event: ProducerEvent) -> bool {
        self.state is Running && !(event is ReceiverGone)
    }

    /// The action that answers `event` at clock reading `now`.
    pub open spec fn action(self, event: ProducerEvent, now: nat) -> ProducerAction {
        if self.goes_on(event) {
            match self.throttle.answer(now) {
                Paced::Ready { status } => ProducerAction::Send { status },
                Paced::Pending { wait_ms } => ProducerAction::Sleep { wait_ms },
            }
        } else {
            ProducerAction::Exit
        }
    }

    /// The state after `event` at clock reading `now`.
    pub open spec fn after(self, event: ProducerEvent, now: nat) -> Self {
        if self.goes_on(event) {
            ProducerView { state: ProducerState::Running, throttle: self.throttle.after_poll(now) }
        } else {
            ProducerView { state: ProducerState::Stopped, throttle: self.throttle }
        }
    }
}

/// The producer task of one watch session.
#[derive(Clone, Copy, Debug, PartialEq, Eq)]
pub struct ProducerTask {
    state: ProducerState,
    throttle: Throttle,
}

impl View for ProducerTask {
    type V = ProducerView;

    closed spec fn view(&self) -> ProducerView {
        ProducerView { state: self.state, throttle: self.throttle@ }
    }
}

impl ProducerTask {
    /// A running task that sends the values of `source`, one every
    /// `interval_ms` milliseconds, for a stream that starts at clock reading
    /// `start_ms`.
    pub fn new(source: StatusSource, interval_ms: u64, start_ms: u64) -> (task: Self)
        ensures
            task@ == ProducerView::starting(source, interval_ms as nat, start_ms as nat),
    {
        ProducerTask {
            state: ProducerState::Running,
            throttle: Throttle::new(source, interval_ms, start_ms),
        }
    }

    /// The state of the task.
    pub fn state(&self) -> (state: ProducerState)
        ensures
            state == self@.state,
    {
        self.state
    }

    /// Whether the task has stopped.
    pub fn is_stopped(&self) -> (stopped: bool)
        ensures
            stopped <==> self@.state is Stopped,
    {
        match self.state {
            ProducerState::Running => false,
            ProducerState::Stopped => true,
        }
    }

    /// Takes `event`, observed at clock reading `now_ms`, and returns what
    /// the driver has to do next.
    ///
    /// A stopped task stays stopped and answers `Exit`. A running task that
    /// learns that the receiver is gone stops, without a retry, and answers
    /// `Exit`. Otherwise the task polls its throttle: a value that is due is
    /// to be sent, and else the task is to sleep for the rest of the
    /// interval.
    pub fn step(&mut self, event: ProducerEvent, now_ms: u64) -> (action: ProducerAction)
        ensures
            action == old(self)@.action(event, now_ms as nat),
            final(self)@ == old(self)@.after(event, now_ms as nat),
    {
        let gone: bool = match event {
            ProducerEvent::ReceiverGone => true,
            _ => false,
        };
        if gone || self.is_stopped() {
            self.state = ProducerState::Stopped;
            ProducerAction::Exit
        } else {
            match self.throttle.poll(now_ms) {
                Paced::Ready { status } => ProducerAction::Send { status },
                Paced::Pending { wait_ms } => ProducerAction::Sleep { wait_ms },
            }
        }
    }
}

/// A stopped task is final: whatever is reported to it, and whenever, it
/// stays as it is and asks for nothing but `Exit`.
pub proof fn law_stopped_is_final(task: ProducerView, event: ProducerEvent, now: nat)
    requires
        task.state is Stopped,
    ensures
        task.after(event, now) == task,
        task.action(event, now) == ProducerAction::Exit,
{
}

/// A running task stops exactly when it learns that the receiver is gone,
/// and until then every step either sends the source's value or sleeps.
pub proof fn law_running_until_receiver_gone(task: ProducerView, event: ProducerEvent, now: nat)
    requires
        task.state is Running,
    ensures
        task.after(event, now).state is Stopped <==> event is ReceiverGone,
        event is ReceiverGone <==> task.action(event, now) is Exit,
        task.action(event, now) matches ProducerAction::Send { status } ==> status
            == task.throttle.source.status && task.throttle.ready(now),
        task.action(event, now) is Sleep ==> !task.throttle.ready(now),
{
}

} // verus!
