use vstd::prelude::*;

verus! {

/// One of the four response classes that the counters track.
#[derive(Clone, Copy, Debug, PartialEq, Eq, Structural)]
pub enum Bucket {
    Resp2xx,
    Resp3xx,
    Resp4xx,
    Resp5xx,
}

/// The class of a status code, or `None` where it falls outside 200..=599.
pub open spec fn bucket_of(status: int) -> Option<Bucket> {
    if 200 <= status <= 299 {
        Some(Bucket::Resp2xx)
    } else if 300 <= status <= 399 {
        Some(Bucket::Resp3xx)
    } else if 400 <= status <= 499 {
        Some(Bucket::Resp4xx)
    } else if 500 <= status <= 599 {
        Some(Bucket::Resp5xx)
    } else {
        None
    }
}

/// Classifies a status code; codes outside 200..=599 belong to no class.
pub fn classify(status: i64) -> (r: Option<Bucket>)
    ensures
        r == bucket_of(status as int),
{
    if 200 <= status && status <= 299 {
        Some(Bucket::Resp2xx)
    } else if 300 <= status && status <= 399 {
        Some(Bucket::Resp3xx)
    } else if 400 <= status && status <= 499 {
        Some(Bucket::Resp4xx)
    } else if 500 <= status && status <= 599 {
        Some(Bucket::Resp5xx)
    } else {
        None
    }
}

} // verus!
