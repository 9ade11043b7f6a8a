use roam::chaos::{burst_buffer, mixed_plan, MixedPlan};
use roam::chaos::{
    big_data_buffer, checksum, mixed_scenario, overwhelm_call, processed_tags, reversed_bytes,
    ChaosService, OverwhelmCall, METHOD_BIG_DATA, METHOD_COMPLEX_STRUCT, METHOD_INSTANT,
    METHOD_SLOW, METHOD_VERY_SLOW,
};

#[test]
fn chaos_service_counts_calls() {
    let mut s = ChaosService::new();
    assert_eq!(s.stats(), (0, 0, 0, 0));
    assert_eq!(s.method_ids(), vec![1, 2, 3, 4, 5]);
    assert_eq!(s.dispatch(METHOD_INSTANT), Some(0));
    assert_eq!(s.dispatch(METHOD_SLOW), Some(100));
    assert_eq!(s.dispatch(METHOD_VERY_SLOW), Some(500));
    assert_eq!(s.dispatch(METHOD_BIG_DATA), Some(10));
    assert_eq!(s.dispatch(METHOD_COMPLEX_STRUCT), Some(20));
    assert_eq!(s.dispatch(99), None);
    s.complete();
    assert_eq!(s.stats(), (6, 1, 0, 0));
    let mut w = ChaosService { calls_total: u32::MAX, ..ChaosService::new() };
    w.dispatch(1);
    assert_eq!(w.calls_total, 0);
}

#[test]
fn handler_computations() {
    assert_eq!(reversed_bytes(&vec![1, 2, 3]), vec![3, 2, 1]);
    assert!(reversed_bytes(&vec![]).is_empty());
    assert_eq!(checksum(&vec![200, 100, 7]), 307);
    assert_eq!(checksum(&vec![9u8; 512]), 4608);
    assert_eq!(
        processed_tags(&vec!["tag-1".to_string(), "production".to_string()]),
        vec!["processed:tag-1".to_string(), "processed:production".to_string()]
    );
}

#[test]
fn overwhelm_mix() {
    assert_eq!(overwhelm_call(0), OverwhelmCall::BigData(1024));
    assert_eq!(overwhelm_call(1), OverwhelmCall::BigData(2048));
    assert_eq!(overwhelm_call(2), OverwhelmCall::ComplexStruct);
    assert_eq!(overwhelm_call(3), OverwhelmCall::ComplexStruct);
    assert_eq!(overwhelm_call(4), OverwhelmCall::Slow);
    assert_eq!(overwhelm_call(105), OverwhelmCall::BigData(1024 + 5 * 1024));
    let b = big_data_buffer(300);
    assert_eq!(b.len(), 300);
    assert_eq!((b[0], b[255], b[256], b[299]), (0, 255, 0, 43));
    assert_eq!(mixed_scenario(13), 1);
}

#[test]
fn mixed_run_workloads() {
    assert_eq!(mixed_plan(0), MixedPlan::QuickDisconnect { bytes: 50 * 1024, fill: 0xAA, wait_ms: 5 });
    assert_eq!(mixed_plan(1), MixedPlan::CancelledComplex { wait_ms: 10 });
    assert_eq!(mixed_plan(2), MixedPlan::RapidConnects { count: 5 });
    assert_eq!(mixed_plan(3), MixedPlan::BigDataBurst { calls: 10, timeout_ms: 200 });
    assert_eq!(mixed_plan(4), MixedPlan::ComplexBurst { calls: 5, timeout_ms: 200 });
    assert_eq!(mixed_plan(5), MixedPlan::InstantBurst { calls: 20, timeout_ms: 100 });
    let b = burst_buffer(3);
    assert_eq!(b.len(), 4096);
    assert!(b.iter().all(|&x| x == 3));
    assert_eq!(burst_buffer(0).len(), 1024);
}
