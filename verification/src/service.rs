//! The service: what each of its three calls answers.

use vstd::prelude::*;
use vstd::string::StringExecFns;
use crate::producer::ProducerView;
use crate::relay::relay_limit;
use crate::session::WatchSession;
use crate::status::{HealthStatus, StatusSource};

verus! {

/// The time between two values of a watch stream, in milliseconds.
pub const WATCH_INTERVAL_MS: u64 = 2000;

/// The number of values that the relay channel of a watch session holds.
pub const RELAY_CAPACITY: usize = 128;

/// The request of the greeting call.
#[derive(Clone, Debug, PartialEq, Eq, Default)]
pub struct HelloRequest {
    pub name: String,
}

/// The response of the greeting call.
#[derive(Clone, Debug, PartialEq, Eq, Default)]
pub struct HelloResponse {
    pub message: String,
}

/// The request of both health calls. Nothing in it is read.
#[derive(Clone, Copy, Debug, PartialEq, Eq, Default)]
pub struct HealthCheckRequest {}

/// One health report, as the single-shot call returns it and as the watch
/// stream carries it.
#[derive(Clone, Copy, Debug, PartialEq, Eq, Structural)]
pub struct HealthCheckResponse {
    pub status: HealthStatus,
}

/// The greeting for `name`.
pub open spec fn greeting(name: Seq<char>) -> Seq<char> {
    "Hello, "@ + name + "!"@
}

/// The service. It has no state: every call is answered from its request
/// alone, and every watch session is made afresh.
#[derive(Debug)]
pub struct HelloServiceImplementation {}

impl Default for HelloServiceImplementation {
    fn default() -> (service: Self)
        ensures
            service == (HelloServiceImplementation {  }),
    {
        HelloServiceImplementation {  }
    }
}

impl HelloServiceImplementation {
    /// Greets the caller by the name in the request.
    pub fn hello(&self, request: HelloRequest) -> (response: HelloResponse)
        ensures
            response.message@ == greeting(request.name@),
    {
        let mut message = String::from_str("Hello, ");
        message.append(request.name.as_str());
        message.append("!");
        HelloResponse { message }
    }

    /// Reports the current health once. The service is always serving.
    pub fn check(&self, _request: HealthCheckRequest) -> (response: HealthCheckResponse)
        ensures
            response.status == HealthStatus::Serving,
    {
        HealthCheckResponse { status: HealthStatus::Serving }
    }

    /// Opens a watch session for a call that arrives at clock reading
    /// `start_ms`: a producer that reports `Serving` every
    /// `WATCH_INTERVAL_MS` milliseconds, and a relay channel of
    /// `RELAY_CAPACITY` values. Nothing is sent or awaited here: the caller
    /// runs the producer and hands out the receiving end, and what the
    /// session then does is what `SessionModel::opened` with these values
    /// can do.
    pub fn watch(&self, _request: HealthCheckRequest, start_ms: u64) -> (session: WatchSession)
        ensures
            session.producer@ == ProducerView::starting(
                StatusSource { status: HealthStatus::Serving },
                WATCH_INTERVAL_MS as nat,
                start_ms as nat,
            ),
            relay_limit(session.sender) == RELAY_CAPACITY,
    {
        WatchSession::open_sized(
            StatusSource::serving(),
            WATCH_INTERVAL_MS,
            RELAY_CAPACITY,
            start_ms,
        )
    }
}

} // verus!
