use nekroddos::latency::{LatencyStats, LatencyTestArgs, TimestampedLatency, COST_PER_TRANSACTION};
use nekroddos::models::{CreateAccountParams, EverWalletInfo};

fn args(num_txs: usize) -> LatencyTestArgs {
    LatencyTestArgs {
        num_txs,
        rps: 10,
        amount: 1_000_000,
        csv: None,
        plot: Some(String::from("plot.html")),
        sla_threshold: Some(500),
        time_window: None,
    }
}

#[test]
fn the_balance_limits_the_transactions() {
    assert_eq!(COST_PER_TRANSACTION, 8_857_001);
    assert_eq!(args(100).affordable_txs(0), 0);
    assert_eq!(args(100).affordable_txs(8_857_000), 0);
    assert_eq!(args(100).affordable_txs(8_857_001), 1);
    assert_eq!(args(100).affordable_txs(99 * 8_857_001 + 8_857_000), 99);
    assert_eq!(args(100).affordable_txs(100 * 8_857_001), 100);
    assert_eq!(args(100).affordable_txs(u128::MAX), 100);
    assert_eq!(args(0).affordable_txs(u128::MAX), 0);
    assert_eq!(args(usize::MAX).affordable_txs(3 * 8_857_001), 3);
}

#[test]
fn a_latency_falls_into_the_window_that_holds_its_time() {
    let measured = TimestampedLatency { timestamp: 1_700_000_123, latency: 42 };
    assert_eq!(measured.window_start(1), 1_700_000_100);
    assert_eq!(measured.window_start(5), 1_700_000_100);
    assert_eq!(measured.window_start(60), 1_699_999_200);
    let early = TimestampedLatency { timestamp: 59, latency: 1 };
    assert_eq!(early.window_start(1), 0);
    let late = TimestampedLatency { timestamp: u64::MAX, latency: 1 };
    assert_eq!(late.window_start(u64::MAX / 60), u64::MAX / 60 * 60);
}

#[test]
fn no_latencies_have_no_statistics() {
    assert_eq!(LatencyStats::from_sorted(&vec![]), None);
    let mut none: Vec<u64> = Vec::new();
    assert_eq!(LatencyStats::summarize(&mut none), None);
}

#[test]
fn statistics_of_sorted_latencies() {
    let sorted: Vec<u64> = (1..=10).collect();
    assert_eq!(
        LatencyStats::from_sorted(&sorted),
        Some(LatencyStats { avg: 5, p50: 6, p95: 10, p99: 10, min: 1, max: 10 })
    );
    assert_eq!(
        LatencyStats::from_sorted(&vec![7]),
        Some(LatencyStats { avg: 7, p50: 7, p95: 7, p99: 7, min: 7, max: 7 })
    );
    assert_eq!(
        LatencyStats::from_sorted(&vec![u64::MAX, u64::MAX]),
        Some(LatencyStats {
            avg: u64::MAX,
            p50: u64::MAX,
            p95: u64::MAX,
            p99: u64::MAX,
            min: u64::MAX,
            max: u64::MAX
        })
    );
}

#[test]
fn latencies_are_sorted_before_they_are_summarized() {
    let mut latencies: Vec<u64> = vec![5, 1, 9, 3, 7, 2, 8, 4, 6, 10];
    let stats = LatencyStats::summarize(&mut latencies);
    assert_eq!(latencies, vec![1, 2, 3, 4, 5, 6, 7, 8, 9, 10]);
    assert_eq!(stats, Some(LatencyStats { avg: 5, p50: 6, p95: 10, p99: 10, min: 1, max: 10 }));

    let mut latencies: Vec<u64> = (1..=1000).rev().collect();
    let stats = LatencyStats::summarize(&mut latencies).unwrap();
    assert_eq!(latencies[0], 1);
    assert_eq!(latencies[999], 1000);
    assert_eq!(stats, LatencyStats { avg: 500, p50: 501, p95: 951, p99: 991, min: 1, max: 1000 });
    assert!(stats.min <= stats.p50 && stats.p50 <= stats.p95);
    assert!(stats.p95 <= stats.p99 && stats.p99 <= stats.max);
}

#[test]
fn wallet_records_hold_their_nonce() {
    let info = EverWalletInfo { create_account_params: CreateAccountParams { nonce: 7 } };
    assert_eq!(info.create_account_params.nonce, 7);
    assert_eq!(info, EverWalletInfo { create_account_params: CreateAccountParams { nonce: 7 } });
}
