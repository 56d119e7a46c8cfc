//! A watch session: the producer task and the relay channel of one
//! streaming health-watch call.

use vstd::prelude::*;
use tokio::sync::mpsc::{Receiver, Sender};
use crate::producer::{ProducerTask, ProducerView};
use crate::relay::{max_relay_capacity, open_relay, relay_limit, sender_limit};
use crate::status::{HealthStatus, StatusSource};

verus! {

/// What one watch call owns: a producer task that has not yet taken a step,
/// and the two ends of its relay channel. Nothing of it is shared with any
/// other session.
///
/// The driver gives `sender` and `producer` to the background task that runs
/// the producer's steps, and hands `receiver` out as the response stream.
pub struct WatchSession {
    pub producer: ProducerTask,
    pub sender: Sender<HealthStatus>,
    pub receiver: Receiver<HealthStatus>,
}

impl WatchSession {
    /// Opens a session that starts at clock reading `start_ms`: a running
    /// producer over `source`, paced at one value every `interval_ms`
    /// milliseconds, and an empty relay channel that holds up to `capacity`
    /// values.
    ///
    /// There is no channel without room or with more room than
    /// `max_relay_capacity()`: for such a capacity, and for no other, no
    /// session is opened.
    pub fn open(source: StatusSource, interval_ms: u64, capacity: usize, start_ms: u64) -> (session:
        Option<Self>)
        ensures
            session is Some <==> 0 < capacity <= max_relay_capacity(),
            session matches Some(s) ==> {
                &&& s.producer@ == ProducerView::starting(
                    source,
                    interval_ms as nat,
                    start_ms as nat,
                )
                &&& relay_limit(s.sender) == capacity
            },
    {
        if capacity == 0 || capacity > usize::MAX / 8 {
            None
        } else {
            Some(WatchSession::open_sized(source, interval_ms, capacity, start_ms))
        }
    }

    /// Opens a session whose relay channel is known to have a capacity that
    /// a channel can be made with.
    pub(crate) fn open_sized(
        source: StatusSource,
        interval_ms: u64,
        capacity: usize,
        start_ms: u64,
    ) -> (session: Self)
        requires
            0 < capacity <= max_relay_capacity(),
        ensures
            session.producer@ == ProducerView::starting(
                source,
                interval_ms as nat,
                start_ms as nat,
            ),
            relay_limit(session.sender) == capacity,
    {
        let (sender, receiver) = open_relay(capacity);
        WatchSession {
            producer: ProducerTask::new(source, interval_ms, start_ms),
            sender,
            receiver,
        }
    }

    /// The number of values that the session's relay channel holds at most.
    pub fn capacity(&self) -> (capacity: usize)
        ensures
            capacity == relay_limit(self.sender),
    {
        sender_limit(&self.sender)
    }
}

} // verus!
