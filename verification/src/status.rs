//! Health status values and the source that produces them.

use vstd::prelude::*;

verus! {

/// The health of the service as reported to clients.
#[derive(Clone, Copy, Debug, PartialEq, Eq, Structural)]
pub enum HealthStatus {
    Unknown,
    Serving,
    NotServing,
    ServiceUnknown,
}

impl HealthStatus {
    /// The number that stands for this status on the wire.
    pub open spec fn wire(self) -> int {
        match self {
            HealthStatus::Unknown => 0,
            HealthStatus::Serving => 1,
            HealthStatus::NotServing => 2,
            HealthStatus::ServiceUnknown => 3,
        }
    }

    /// Returns the number that stands for this status on the wire.
    pub fn code(self) -> (c: i32)
        ensures
            c == self.wire(),
    {
        match self {
            HealthStatus::Unknown => 0,
            HealthStatus::Serving => 1,
            HealthStatus::NotServing => 2,
            HealthStatus::ServiceUnknown => 3,
        }
    }
}

/// An endless supply of status values, all equal to the one it was made with.
///
/// The source has no state of its own: pulling from it never changes it, so a
/// copy of it, or the same source pulled again from the start, yields the
/// same sequence.
#[derive(Clone, Copy, Debug, PartialEq, Eq, Structural)]
pub struct StatusSource {
    pub status: HealthStatus,
}

impl StatusSource {
    /// The `n`-th value of the sequence, counting from zero.
    pub open spec fn output(self, n: nat) -> HealthStatus {
        self.status
    }

    /// The first `n` values of the sequence.
    pub open spec fn prefix(self, n: nat) -> Seq<HealthStatus> {
        Seq::new(n, |k: int| self.output(k as nat))
    }

    /// A source whose every value is `status`.
    pub fn repeating(status: HealthStatus) -> (source: Self)
        ensures
            source.status == status,
            forall|n: nat| #[trigger] source.output(n) == status,
    {
        StatusSource { status }
    }

    /// The source that the service reports from: every value is `Serving`.
    pub fn serving() -> (source: Self)
        ensures
            source.status == HealthStatus::Serving,
            forall|n: nat| #[trigger] source.output(n) == HealthStatus::Serving,
    {
        StatusSource::repeating(HealthStatus::Serving)
    }

    /// Pulls the next value. The source is endless and keeps no position, so
    /// the value is the one found at every index of the sequence.
    pub fn next(&self) -> (status: HealthStatus)
        ensures
            status == self.status,
            forall|n: nat| #[trigger] self.output(n) == status,
    {
        self.status
    }
}

} // verus!
