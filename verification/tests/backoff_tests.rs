use async_anthropic::backoff::{next_base_delay, next_delay, BackoffConfig};

fn config(min: u64, max: u64, factor: u64, jitter: bool, max_attempts: Option<u32>) -> BackoffConfig {
    BackoffConfig { min_delay_ms: min, max_delay_ms: max, factor, jitter, max_attempts }
}

#[test]
fn default_config_matches_documented_schedule() {
    let cfg = BackoffConfig::default();
    assert_eq!(cfg.min_delay_ms, 15000);
    assert_eq!(cfg.max_delay_ms, 120000);
    assert_eq!(cfg.factor, 2);
    assert!(cfg.jitter);
    assert_eq!(cfg.max_attempts, Some(4));
}

#[test]
fn base_delay_doubles_then_caps() {
    let cfg = config(100, 1000, 2, false, None);
    assert_eq!(next_base_delay(&cfg, 0), 100);
    assert_eq!(next_base_delay(&cfg, 1), 200);
    assert_eq!(next_base_delay(&cfg, 2), 400);
    assert_eq!(next_base_delay(&cfg, 3), 800);
    assert_eq!(next_base_delay(&cfg, 4), 1000);
    assert_eq!(next_base_delay(&cfg, 10), 1000);
    assert_eq!(next_base_delay(&cfg, 63), 1000);
}

#[test]
fn factor_one_keeps_the_minimum_delay() {
    let cfg = config(250, 1000, 1, false, None);
    for attempt in 0..20 {
        assert_eq!(next_base_delay(&cfg, attempt), 250);
    }
}

#[test]
fn jitter_adds_the_sample_modulo_the_base() {
    let cfg = config(100, 1000, 2, true, None);
    // base 100, sample 55 -> 100 + 55 % 100
    assert_eq!(next_delay(&cfg, 0, 55), 155);
    // base 200, sample 455 -> 200 + 55
    assert_eq!(next_delay(&cfg, 1, 455), 255);
    // sample 0 leaves the base delay
    assert_eq!(next_delay(&cfg, 0, 0), 100);
}

#[test]
fn every_delay_respects_the_cap() {
    let cfg = config(100, 1000, 3, true, None);
    for attempt in 0..30 {
        for sample in [0u64, 1, 99, 100, 12345, u64::MAX] {
            assert!(next_delay(&cfg, attempt, sample) <= cfg.max_delay_ms);
        }
    }
}

#[test]
fn base_delay_is_monotone_in_the_attempt() {
    let cfg = config(7, 5000, 3, false, None);
    let mut last = 0u64;
    for attempt in 0..30 {
        let d = next_base_delay(&cfg, attempt);
        assert!(d >= last);
        last = d;
    }
}
