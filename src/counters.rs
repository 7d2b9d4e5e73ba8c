use vstd::prelude::*;

use crate::classify::{bucket_of, classify, Bucket};

verus! {

/// A counter after one increment: it wraps to zero past `u64::MAX`, as an
/// atomic add does.
pub open spec fn bumped(n: u64) -> u64 {
    if n == u64::MAX {
        0
    } else {
        (n + 1) as u64
    }
}

/// The value of the counter of class `b` after a response with `status` was
/// recorded: only the counter of the status's own class moves.
pub open spec fn counted(n: u64, b: Bucket, status: int) -> u64 {
    if bucket_of(status) == Some(b) {
        bumped(n)
    } else {
        n
    }
}

/// Response counters of the backend (upstream) direction, in the order in
/// which they are published: `resp_2xx`, `resp_3xx`, `resp_4xx`, `resp_5xx`.
pub struct BackendStats {
    resp_2xx: u64,
    resp_3xx: u64,
    resp_4xx: u64,
    resp_5xx: u64,
}

impl BackendStats {
    /// The counter of class `b`.
    pub closed spec fn count(&self, b: Bucket) -> u64 {
        match b {
            Bucket::Resp2xx => self.resp_2xx,
            Bucket::Resp3xx => self.resp_3xx,
            Bucket::Resp4xx => self.resp_4xx,
            Bucket::Resp5xx => self.resp_5xx,
        }
    }

    /// A block with every counter at zero.
    pub fn new() -> (r: Self)
        ensures
            forall|b: Bucket| #[trigger] r.count(b) == 0,
    {
        BackendStats { resp_2xx: 0, resp_3xx: 0, resp_4xx: 0, resp_5xx: 0 }
    }

    /// Adds one to the counter of the status's class; a status outside
    /// 200..=599 changes nothing.
    pub fn increment(&mut self, status: i64)
        ensures
            forall|b: Bucket|
                #[trigger] final(self).count(b) == counted(old(self).count(b), b, status as int),
    {
        match classify(status) {
            Some(Bucket::Resp2xx) => self.resp_2xx = self.resp_2xx.wrapping_add(1),
            Some(Bucket::Resp3xx) => self.resp_3xx = self.resp_3xx.wrapping_add(1),
            Some(Bucket::Resp4xx) => self.resp_4xx = self.resp_4xx.wrapping_add(1),
            Some(Bucket::Resp5xx) => self.resp_5xx = self.resp_5xx.wrapping_add(1),
            None => {},
        }
    }

    /// The current value of the counter of class `b`.
    pub fn read(&self, b: Bucket) -> (r: u64)
        ensures
            r == self.count(b),
    {
        match b {
            Bucket::Resp2xx => self.resp_2xx,
            Bucket::Resp3xx => self.resp_3xx,
            Bucket::Resp4xx => self.resp_4xx,
            Bucket::Resp5xx => self.resp_5xx,
        }
    }
}

/// Response counters of the frontend (client-facing) direction, in the order in
/// which they are published: `resp_2xx`, `resp_3xx`, `resp_4xx`, `resp_5xx`.
pub struct FrontendStats {
    resp_2xx: u64,
    resp_3xx: u64,
    resp_4xx: u64,
    resp_5xx: u64,
}

impl FrontendStats {
    /// The counter of class `b`.
    pub closed spec fn count(&self, b: Bucket) -> u64 {
        match b {
            Bucket::Resp2xx => self.resp_2xx,
            Bucket::Resp3xx => self.resp_3xx,
            Bucket::Resp4xx => self.resp_4xx,
            Bucket::Resp5xx => self.resp_5xx,
        }
    }

    /// A block with every counter at zero.
    pub fn new() -> (r: Self)
        ensures
            forall|b: Bucket| #[trigger] r.count(b) == 0,
    {
        FrontendStats { resp_2xx: 0, resp_3xx: 0, resp_4xx: 0, resp_5xx: 0 }
    }

    /// Adds one to the counter of the status's class; a status outside
    /// 200..=599 changes nothing.
    pub fn increment(&mut self, status: i64)
        ensures
            forall|b: Bucket|
                #[trigger] final(self).count(b) == counted(old(self).count(b), b, status as int),
    {
        match classify(status) {
            Some(Bucket::Resp2xx) => self.resp_2xx = self.resp_2xx.wrapping_add(1),
            Some(Bucket::Resp3xx) => self.resp_3xx = self.resp_3xx.wrapping_add(1),
            Some(Bucket::Resp4xx) => self.resp_4xx = self.resp_4xx.wrapping_add(1),
            Some(Bucket::Resp5xx) => self.resp_5xx = self.resp_5xx.wrapping_add(1),
            None => {},
        }
    }

    /// The current value of the counter of class `b`.
    pub fn read(&self, b: Bucket) -> (r: u64)
        ensures
            r == self.count(b),
    {
        match b {
            Bucket::Resp2xx => self.resp_2xx,
            Bucket::Resp3xx => self.resp_3xx,
            Bucket::Resp4xx => self.resp_4xx,
            Bucket::Resp5xx => self.resp_5xx,
        }
    }
}

} // verus!
