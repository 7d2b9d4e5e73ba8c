use httpstats::{classify, stats, Bucket, BackendStats, FrontendStats, Direction};
use httpstats::{BACKEND_SEGMENT, FRONTEND_SEGMENT, INSTANCE_NAME};

fn all_readings(s: &stats) -> [i64; 8] {
    [
        s.backend_2xx(),
        s.backend_3xx(),
        s.backend_4xx(),
        s.backend_5xx(),
        s.frontend_2xx(),
        s.frontend_3xx(),
        s.frontend_4xx(),
        s.frontend_5xx(),
    ]
}

#[test]
fn fresh_registry_reads_zero() {
    let s = stats::new();
    assert_eq!(all_readings(&s), [0; 8]);
}

#[test]
fn scenario_mixed_records() {
    let mut s = stats::new();
    s.record_backend(204);
    s.record_backend(404);
    s.record_backend(404);
    s.record_frontend(301);
    assert_eq!(s.backend_2xx(), 1);
    assert_eq!(s.backend_4xx(), 2);
    assert_eq!(s.backend_3xx(), 0);
    assert_eq!(s.backend_5xx(), 0);
    assert_eq!(s.frontend_3xx(), 1);
    assert_eq!(s.frontend_2xx(), 0);
    assert_eq!(s.frontend_4xx(), 0);
    assert_eq!(s.frontend_5xx(), 0);
}

#[test]
fn each_class_counts_once_backend() {
    let cases: [(i64, usize); 8] =
        [(200, 0), (299, 0), (300, 1), (399, 1), (400, 2), (499, 2), (500, 3), (599, 3)];
    for (status, idx) in cases {
        let mut s = stats::new();
        s.record_backend(status);
        let mut expected = [0i64; 8];
        expected[idx] = 1;
        assert_eq!(all_readings(&s), expected, "status {}", status);
    }
}

#[test]
fn each_class_counts_once_frontend() {
    let cases: [(i64, usize); 8] =
        [(200, 4), (250, 4), (302, 5), (304, 5), (404, 6), (418, 6), (503, 7), (599, 7)];
    for (status, idx) in cases {
        let mut s = stats::new();
        s.record_frontend(status);
        let mut expected = [0i64; 8];
        expected[idx] = 1;
        assert_eq!(all_readings(&s), expected, "status {}", status);
    }
}

#[test]
fn out_of_range_statuses_are_ignored() {
    let mut s = stats::new();
    s.record_backend(204);
    s.record_frontend(503);
    let before = all_readings(&s);
    for status in [i64::MIN, -1, 0, 100, 199, 600, 999, i64::MAX] {
        s.record_backend(status);
        s.record_frontend(status);
    }
    assert_eq!(all_readings(&s), before);
}

#[test]
fn reads_are_idempotent() {
    let mut s = stats::new();
    s.record_backend(201);
    s.record_frontend(404);
    let first = all_readings(&s);
    let second = all_readings(&s);
    assert_eq!(first, second);
    assert_eq!(s.read(Direction::Backend, Bucket::Resp2xx), s.backend_2xx());
}

#[test]
fn many_records_are_all_counted() {
    let threads: i64 = 8;
    let per_thread: i64 = 1000;
    let mut s = stats::new();
    for _ in 0..threads {
        for _ in 0..per_thread {
            s.record_backend(200);
        }
    }
    assert_eq!(s.backend_2xx(), threads * per_thread);
    assert_eq!(s.backend_3xx(), 0);
}

#[test]
fn backend_records_never_touch_frontend() {
    let mut s = stats::new();
    for status in [200, 301, 404, 500, 42, 777] {
        s.record_backend(status);
    }
    assert_eq!(s.frontend_2xx(), 0);
    assert_eq!(s.frontend_3xx(), 0);
    assert_eq!(s.frontend_4xx(), 0);
    assert_eq!(s.frontend_5xx(), 0);
}

#[test]
fn frontend_records_never_touch_backend() {
    let mut s = stats::new();
    for status in [204, 302, 410, 502] {
        s.record_frontend(status);
    }
    assert_eq!(s.backend_2xx(), 0);
    assert_eq!(s.backend_3xx(), 0);
    assert_eq!(s.backend_4xx(), 0);
    assert_eq!(s.backend_5xx(), 0);
    assert_eq!(s.frontend_2xx(), 1);
    assert_eq!(s.frontend_5xx(), 1);
}

#[test]
fn one_class_never_touches_another() {
    let mut s = stats::new();
    for status in 400..=499 {
        s.record_backend(status);
        s.record_frontend(status);
    }
    assert_eq!(s.backend_4xx(), 100);
    assert_eq!(s.frontend_4xx(), 100);
    assert_eq!(s.backend_2xx(), 0);
    assert_eq!(s.backend_3xx(), 0);
    assert_eq!(s.backend_5xx(), 0);
    assert_eq!(s.frontend_2xx(), 0);
    assert_eq!(s.frontend_3xx(), 0);
    assert_eq!(s.frontend_5xx(), 0);
}

#[test]
fn classify_boundaries() {
    assert_eq!(classify(199), None);
    assert_eq!(classify(200), Some(Bucket::Resp2xx));
    assert_eq!(classify(299), Some(Bucket::Resp2xx));
    assert_eq!(classify(300), Some(Bucket::Resp3xx));
    assert_eq!(classify(399), Some(Bucket::Resp3xx));
    assert_eq!(classify(400), Some(Bucket::Resp4xx));
    assert_eq!(classify(499), Some(Bucket::Resp4xx));
    assert_eq!(classify(500), Some(Bucket::Resp5xx));
    assert_eq!(classify(599), Some(Bucket::Resp5xx));
    assert_eq!(classify(600), None);
    assert_eq!(classify(-200), None);
}

#[test]
fn counter_blocks_count_by_class() {
    let mut b = BackendStats::new();
    let mut f = FrontendStats::new();
    b.increment(302);
    b.increment(302);
    b.increment(1);
    f.increment(500);
    assert_eq!(b.read(Bucket::Resp3xx), 2);
    assert_eq!(b.read(Bucket::Resp2xx), 0);
    assert_eq!(f.read(Bucket::Resp5xx), 1);
    assert_eq!(f.read(Bucket::Resp3xx), 0);
}

#[test]
fn segment_names() {
    assert_eq!(BACKEND_SEGMENT, "httpstats.backend");
    assert_eq!(FRONTEND_SEGMENT, "httpstats.frontend");
    assert_eq!(INSTANCE_NAME, "default");
}
