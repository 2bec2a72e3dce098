use snapcast_receiver::util::{measure_exec, slow_call, HeapWatch, SlowCall, HEAP_DROP_REPORTED};

#[test]
fn measure_exec_calls_exactly_once() {
    let mut calls = 0;
    let _ = measure_exec("count", || calls += 1, 1_000_000);
    assert_eq!(calls, 1);
}

#[test]
fn measure_exec_reports_a_call_over_the_threshold() {
    let mut total: u64 = 0;
    let report = measure_exec(
        "busy",
        || {
            for i in 0..200_000u64 {
                total = std::hint::black_box(total.wrapping_mul(31).wrapping_add(i));
            }
        },
        0,
    );
    assert_ne!(total, 0);
    let slow = report.unwrap();
    assert_eq!(slow.name, "busy");
    assert!(slow.elapsed_nanos > 0);
}

#[test]
fn measure_exec_is_silent_under_the_threshold() {
    assert_eq!(measure_exec("quick", || {}, u128::MAX), None);
    assert_eq!(measure_exec("quick", || {}, 3_600_000_000_000), None);
}

#[test]
fn slow_call_reports_only_what_is_over() {
    assert_eq!(
        slow_call("write", Some(1_000_001), 1_000_000),
        Some(SlowCall { name: "write", elapsed_nanos: 1_000_001 })
    );
    assert_eq!(slow_call("write", Some(1_000_000), 1_000_000), None);
    assert_eq!(slow_call("write", Some(0), 1_000_000), None);
    assert_eq!(slow_call("write", Some(1), 0), Some(SlowCall { name: "write", elapsed_nanos: 1 }));
    assert_eq!(slow_call("write", Some(0), 0), None);
}

#[test]
fn slow_call_without_a_duration_reports_nothing() {
    assert_eq!(slow_call("write", None, 0), None);
}

#[test]
fn heap_watch_follows_the_heap_down() {
    let mut watch = HeapWatch::new(100_000);
    assert!(!watch.observe(100_000));
    assert!(!watch.observe(120_000));
    assert_eq!(watch.free_heap, 100_000);
    assert!(!watch.observe(99_999));
    assert_eq!(watch.free_heap, 99_999);
}

#[test]
fn heap_watch_reports_a_large_fall() {
    assert_eq!(HEAP_DROP_REPORTED, 512);
    let mut watch = HeapWatch::new(100_000);
    assert!(!watch.observe(99_488));
    assert_eq!(watch.free_heap, 99_488);
    assert!(watch.observe(98_975));
    assert_eq!(watch.free_heap, 98_975);
    assert!(!watch.observe(98_975 - 512));
    assert!(watch.observe(0));
    assert_eq!(watch.free_heap, 0);
    assert!(!watch.observe(u32::MAX));
}
