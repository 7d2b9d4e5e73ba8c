//! Counters of HTTP responses by status class (2xx, 3xx, 4xx, 5xx), kept
//! separately for backend and frontend traffic.

mod classify;
mod counters;
mod laws;
mod registry;

pub use classify::{bucket_of, classify, Bucket};
pub use counters::{bumped, counted, BackendStats, FrontendStats};
pub use laws::{
    bucket_isolation, direction_isolation, is_run, reads_are_stable, record_counts_once,
    record_ignores_unclassified, records_accumulate,
};
pub use registry::{stats, Direction, BACKEND_SEGMENT, FRONTEND_SEGMENT, INSTANCE_NAME};
