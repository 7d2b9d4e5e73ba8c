use vstd::prelude::*;

use crate::classify::Bucket;
use crate::counters::{counted, BackendStats, FrontendStats};

verus! {

/// The identifier under which the backend counter block is published.
pub const BACKEND_SEGMENT: &'static str = "httpstats.backend";

/// The identifier under which the frontend counter block is published.
pub const FRONTEND_SEGMENT: &'static str = "httpstats.frontend";

/// The instance name that qualifies both published blocks.
pub const INSTANCE_NAME: &'static str = "default";

/// A traffic direction: upstream (backend) or client-facing (frontend).
#[derive(Clone, Copy, Debug, PartialEq, Eq, Structural)]
pub enum Direction {
    Backend,
    Frontend,
}

/// The registry: one block of response counters for each direction.
#[allow(non_camel_case_types)]
pub struct stats {
    backend: BackendStats,
    frontend: FrontendStats,
}

impl stats {
    /// The counter of class `b` in direction `d`.
    pub closed spec fn value(&self, d: Direction, b: Bucket) -> u64 {
        match d {
            Direction::Backend => self.backend.count(b),
            Direction::Frontend => self.frontend.count(b),
        }
    }

    /// What the accessor of class `b` in direction `d` returns: the counter
    /// reinterpreted as a signed 64-bit integer. A counter past `i64::MAX`
    /// reads as negative; published readers see the unsigned value.
    pub open spec fn reading(&self, d: Direction, b: Bucket) -> i64 {
        self.value(d, b) as i64
    }

    /// `after` is `self` once a response with `status` was recorded in
    /// direction `d`: the counter of the status's class in `d` moved by one,
    /// and nothing else changed.
    pub open spec fn records(&self, after: stats, d: Direction, status: int) -> bool {
        forall|e: Direction, b: Bucket| #[trigger]
            after.value(e, b) == if e == d {
                counted(self.value(e, b), b, status)
            } else {
                self.value(e, b)
            }
    }

    /// A registry with every counter of both directions at zero.
    #[allow(clippy::new_without_default)]
    pub fn new() -> (r: Self)
        ensures
            forall|d: Direction, b: Bucket| #[trigger] r.value(d, b) == 0,
    {
        stats { backend: BackendStats::new(), frontend: FrontendStats::new() }
    }

    /// Records a backend response by status code.
    pub fn record_backend(&mut self, status: i64)
        ensures
            old(self).records(*final(self), Direction::Backend, status as int),
    {
        self.backend.increment(status);
    }

    /// Records a frontend response by status code.
    pub fn record_frontend(&mut self, status: i64)
        ensures
            old(self).records(*final(self), Direction::Frontend, status as int),
    {
        self.frontend.increment(status);
    }

    /// The counter of class `b` in direction `d`, as a signed integer.
    pub fn read(&self, d: Direction, b: Bucket) -> (r: i64)
        ensures
            r == self.reading(d, b),
    {
        let n: u64 = match d {
            Direction::Backend => self.backend.read(b),
            Direction::Frontend => self.frontend.read(b),
        };
        n as i64
    }

    /// The count of backend 2xx responses.
    pub fn backend_2xx(&self) -> (r: i64)
        ensures
            r == self.reading(Direction::Backend, Bucket::Resp2xx),
    {
        self.read(Direction::Backend, Bucket::Resp2xx)
    }

    /// The count of backend 3xx responses.
    pub fn backend_3xx(&self) -> (r: i64)
        ensures
            r == self.reading(Direction::Backend, Bucket::Resp3xx),
    {
        self.read(Direction::Backend, Bucket::Resp3xx)
    }

    /// The count of backend 4xx responses.
    pub fn backend_4xx(&self) -> (r: i64)
        ensures
            r == self.reading(Direction::Backend, Bucket::Resp4xx),
    {
        self.read(Direction::Backend, Bucket::Resp4xx)
    }

    /// The count of backend 5xx responses.
    pub fn backend_5xx(&self) -> (r: i64)
        ensures
            r == self.reading(Direction::Backend, Bucket::Resp5xx),
    {
        self.read(Direction::Backend, Bucket::Resp5xx)
    }

    /// The count of frontend 2xx responses.
    pub fn frontend_2xx(&self) -> (r: i64)
        ensures
            r == self.reading(Direction::Frontend, Bucket::Resp2xx),
    {
        self.read(Direction::Frontend, Bucket::Resp2xx)
    }

    /// The count of frontend 3xx responses.
    pub fn frontend_3xx(&self) -> (r: i64)
        ensures
            r == self.reading(Direction::Frontend, Bucket::Resp3xx),
    {
        self.read(Direction::Frontend, Bucket::Resp3xx)
    }

    /// The count of frontend 4xx responses.
    pub fn frontend_4xx(&self) -> (r: i64)
        ensures
            r == self.reading(Direction::Frontend, Bucket::Resp4xx),
    {
        self.read(Direction::Frontend, Bucket::Resp4xx)
    }

    /// The count of frontend 5xx responses.
    pub fn frontend_5xx(&self) -> (r: i64)
        ensures
            r == self.reading(Direction::Frontend, Bucket::Resp5xx),
    {
        self.read(Direction::Frontend, Bucket::Resp5xx)
    }
}

} // verus!
