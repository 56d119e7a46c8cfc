//! The relay channel between a producer task and the outward stream.
//!
//! The channel itself is tokio's bounded multi-producer channel. This module
//! makes it, with a capacity that the session's contracts can speak of, and
//! holds the model of it over which the laws of a session are stated.

use vstd::prelude::*;
use tokio::sync::mpsc::{Receiver, Sender};
use crate::status::HealthStatus;

verus! {

/// `tokio::sync::mpsc::Sender`, the sending end of a bounded channel.
#[verifier::external_type_specification]
#[verifier::external_body]
#[verifier::reject_recursive_types(T)]
pub struct ExSender<T>(tokio::sync::mpsc::Sender<T>);

/// `tokio::sync::mpsc::Receiver`, the receiving end of a bounded channel.
#[verifier::external_type_specification]
#[verifier::external_body]
#[verifier::reject_recursive_types(T)]
pub struct ExReceiver<T>(tokio::sync::mpsc::Receiver<T>);

/// The number of values that the channel behind `sender` was made to hold.
pub uninterp spec fn relay_limit(sender: Sender<HealthStatus>) -> nat;

/// The largest capacity that a channel can be made with.
pub open spec fn max_relay_capacity() -> nat {
    (usize::MAX / 8) as nat
}

/// Makes a channel with `tokio::sync::mpsc::channel`, which panics on a
/// capacity of zero and on one above an eighth of the address space, and
/// records the capacity in the channel: it is what `max_capacity` reports
/// of either end from then on.
#[verifier::external_body]
pub(crate) fn open_relay(capacity: usize) -> (ends: (Sender<HealthStatus>, Receiver<HealthStatus>))
    requires
        0 < capacity <= max_relay_capacity(),
    ensures
        relay_limit(ends.0) == capacity,
{
    tokio::sync::mpsc::channel(capacity)
}

/// Reads the capacity back with `tokio::sync::mpsc::Sender::max_capacity`,
/// which returns the bound that the channel was made with and never changes
/// as values come and go.
#[verifier::external_body]
pub(crate) fn sender_limit(sender: &Sender<HealthStatus>) -> (limit: usize)
    ensures
        limit == relay_limit(*sender),
{
    sender.max_capacity()
}

/// The relay channel as the laws of a session see it: a queue of bounded
/// length with an open or closed receiving side. A send completes only while
/// the receiver is there and the queue has room, and fails once the receiver
/// is gone; a receive takes the oldest value.
pub struct RelayModel {
    /// The number of values that the queue holds at most.
    pub capacity: nat,
    /// The values sent and not yet received, oldest first.
    pub buffered: Seq<HealthStatus>,
    /// Whether the receiving side is still there.
    pub receiver_open: bool,
}

impl RelayModel {
    /// A channel that was just made: empty, with its receiver in place.
    pub open spec fn opened(capacity: nat) -> Self {
        RelayModel { capacity, buffered: Seq::empty(), receiver_open: true }
    }

    /// Whether a send completes now rather than suspend or fail.
    pub open spec fn has_room(self) -> bool {
        self.receiver_open && self.buffered.len() < self.capacity
    }

    /// The channel after a send of `status` has completed.
    pub open spec fn sent(self, status: HealthStatus) -> Self {
        RelayModel { buffered: self.buffered.push(status), ..self }
    }

    /// Whether a receive completes now rather than suspend.
    pub open spec fn has_value(self) -> bool {
        self.receiver_open && self.buffered.len() > 0
    }

    /// The value that the next receive returns.
    pub open spec fn oldest(self) -> HealthStatus {
        self.buffered[0]
    }

    /// The channel after a receive has completed.
    pub open spec fn received(self) -> Self {
        RelayModel { buffered: self.buffered.drop_first(), ..self }
    }

    /// The channel after its receiving side was dropped, and with it
    /// whatever was still buffered.
    pub open spec fn dropped(self) -> Self {
        RelayModel { buffered: Seq::empty(), receiver_open: false, ..self }
    }
}

} // verus!
