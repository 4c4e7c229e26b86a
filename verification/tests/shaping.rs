use lag_sim::config::ShapingConfig;
use lag_sim::shaping::{
    apply_bandwidth, apply_delay, apply_drop, chunk_dropped, delay_range, drop_range, MAX_CHUNK,
};
use lag_sim::stats::Stats;

fn config(latency_ms: u64, drop_pct: u8, bandwidth_kbps: u64, chaos: bool) -> ShapingConfig {
    ShapingConfig { latency_ms, drop_pct, bandwidth_kbps, chaos }
}

#[test]
fn zero_percent_never_drops() {
    for chaos in [false, true] {
        let cfg = config(0, 0, 256, chaos);
        let mut stats = Stats::new();
        for _ in 0..10_000 {
            assert!(!apply_drop(&cfg, &mut stats));
        }
        assert_eq!(stats.packets_dropped, 0);
        assert_eq!(stats.bytes_delayed, 0);
    }
}

#[test]
fn hundred_percent_always_drops() {
    for chaos in [false, true] {
        let cfg = config(0, 100, 256, chaos);
        let mut stats = Stats::new();
        for n in 1..=10_000u64 {
            assert!(apply_drop(&cfg, &mut stats));
            assert_eq!(stats.packets_dropped, n);
        }
        assert_eq!(stats.bytes_delayed, 0);
    }
}

#[test]
fn half_the_chunks_drop_at_fifty_percent() {
    let cfg = config(0, 50, 256, false);
    let mut stats = Stats::new();
    let mut dropped = 0u64;
    for _ in 0..10_000 {
        if apply_drop(&cfg, &mut stats) {
            dropped += 1;
        }
    }
    assert_eq!(stats.packets_dropped, dropped);
    assert!(dropped > 4_000 && dropped < 6_000, "dropped {}", dropped);
}

#[test]
fn drop_counter_stays_at_its_largest_value() {
    let cfg = config(0, 100, 256, false);
    let mut stats = Stats::new();
    stats.packets_dropped = u64::MAX;
    assert!(apply_drop(&cfg, &mut stats));
    assert_eq!(stats.packets_dropped, u64::MAX);
}

#[test]
fn drop_decision_compares_draw_and_chance() {
    assert!(chunk_dropped(5, 0));
    assert!(chunk_dropped(5, 4));
    assert!(!chunk_dropped(5, 5));
    assert!(!chunk_dropped(0, 0));
    assert!(chunk_dropped(100, 99));
}

#[test]
fn drop_chance_swings_under_chaos_only() {
    assert_eq!(drop_range(&config(0, 5, 1, false)), (5, 5));
    assert_eq!(drop_range(&config(0, 5, 1, true)), (0, 10));
    assert_eq!(drop_range(&config(0, 50, 1, true)), (0, 100));
    assert_eq!(drop_range(&config(0, 80, 1, true)), (60, 100));
    assert_eq!(drop_range(&config(0, 0, 1, true)), (0, 0));
    assert_eq!(drop_range(&config(0, 100, 1, true)), (100, 100));
}

#[test]
fn delay_is_the_latency_without_chaos() {
    let cfg = config(120, 0, 256, false);
    let mut stats = Stats::new();
    assert_eq!(apply_delay(&cfg, &mut stats, 1000), 120);
    assert_eq!(stats.bytes_delayed, 1000);
    assert_eq!(apply_delay(&cfg, &mut stats, 24), 120);
    assert_eq!(stats.bytes_delayed, 1024);
    assert_eq!(stats.packets_dropped, 0);
}

#[test]
fn delay_swings_around_the_latency_under_chaos() {
    let cfg = config(100, 0, 256, true);
    assert_eq!(delay_range(&cfg), (50, 150));
    let mut stats = Stats::new();
    let mut least = u64::MAX;
    let mut most = 0u64;
    for _ in 0..2_000 {
        let delay = apply_delay(&cfg, &mut stats, 1);
        assert!((50..=150).contains(&delay));
        least = least.min(delay);
        most = most.max(delay);
    }
    assert!(least < most);
    assert_eq!(stats.bytes_delayed, 2_000);
}

#[test]
fn delay_range_at_the_edges() {
    assert_eq!(delay_range(&config(0, 0, 1, true)), (0, 0));
    assert_eq!(delay_range(&config(1, 0, 1, true)), (1, 1));
    assert_eq!(delay_range(&config(7, 0, 1, true)), (4, 10));
    assert_eq!(delay_range(&config(u64::MAX, 0, 1, true)), (u64::MAX - u64::MAX / 2, u64::MAX));
    assert_eq!(delay_range(&config(u64::MAX, 0, 1, false)), (u64::MAX, u64::MAX));
}

#[test]
fn latency_change_shows_in_the_next_delay() {
    let mut stats = Stats::new();
    let before = apply_delay(&config(100, 0, 256, false), &mut stats, 10);
    let after = apply_delay(&config(0, 0, 256, false), &mut stats, 10);
    assert_eq!(before, 100);
    assert_eq!(after, 0);
    let chaotic = apply_delay(&config(0, 0, 256, true), &mut stats, 10);
    assert_eq!(chaotic, 0);
}

#[test]
fn delayed_bytes_stay_at_their_largest_value() {
    let mut stats = Stats::new();
    stats.bytes_delayed = u64::MAX - 5;
    apply_delay(&config(0, 0, 1, false), &mut stats, 10);
    assert_eq!(stats.bytes_delayed, u64::MAX);
}

#[test]
fn bandwidth_wait_is_bits_over_rate_rounded_up() {
    let cfg = config(0, 0, 256, false);
    assert_eq!(apply_bandwidth(&cfg, 8192, 0), 256);
    assert_eq!(apply_bandwidth(&cfg, MAX_CHUNK as u64, 0), 256);
    assert_eq!(apply_bandwidth(&cfg, 1000, 0), 32);
    assert_eq!(apply_bandwidth(&cfg, 1, 0), 1);
    assert_eq!(apply_bandwidth(&cfg, 0, 0), 0);
    assert_eq!(apply_bandwidth(&config(0, 0, 8, false), 5, 0), 5);
    assert_eq!(apply_bandwidth(&config(0, 0, 1, false), 3, 0), 24);
}

#[test]
fn bandwidth_wait_counts_the_time_already_held() {
    let cfg = config(0, 0, 256, false);
    assert_eq!(apply_bandwidth(&cfg, 8192, 120), 136);
    assert_eq!(apply_bandwidth(&cfg, 8192, 256), 0);
    assert_eq!(apply_bandwidth(&cfg, 8192, 1_000), 0);
    assert_eq!(apply_bandwidth(&cfg, 8192, u64::MAX), 0);
}

#[test]
fn bandwidth_wait_is_held_at_its_largest_value() {
    let cfg = config(0, 0, 1, false);
    assert_eq!(apply_bandwidth(&cfg, u64::MAX, 0), u64::MAX);
    assert_eq!(apply_bandwidth(&config(0, 0, 8, false), u64::MAX, 0), u64::MAX);
    assert_eq!(apply_bandwidth(&config(0, 0, 8, false), u64::MAX, 5), u64::MAX - 5);
}

#[test]
fn forwarding_takes_at_least_the_capped_time() {
    let cfg = config(0, 0, 100, false);
    let chunks = [1u64, 13, 999, 8192, 64, 7, 4096];
    let mut total_ms = 0u64;
    let mut total_bytes = 0u64;
    for len in chunks {
        total_ms += apply_bandwidth(&cfg, len, 0);
        total_bytes += len;
    }
    assert!(total_ms >= total_bytes * 8 / 100);
    assert!(total_ms * 100 >= total_bytes * 8);
}
