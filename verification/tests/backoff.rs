use nssm_rs::backoff::{restart_delay_ms, MAX_RESTART_DELAY_MS, MIN_THROTTLE_MS};

#[test]
fn first_restart_waits_the_throttle() {
    assert_eq!(restart_delay_ms(1500, 0), 1500);
    assert_eq!(restart_delay_ms(2000, 0), 2000);
}

#[test]
fn throttle_is_raised_to_one_second() {
    assert_eq!(restart_delay_ms(0, 0), 1000);
    assert_eq!(restart_delay_ms(500, 0), 1000);
    assert_eq!(restart_delay_ms(999, 2), 4000);
}

#[test]
fn each_attempt_doubles_the_wait() {
    assert_eq!(restart_delay_ms(1500, 1), 3000);
    assert_eq!(restart_delay_ms(1500, 2), 6000);
    assert_eq!(restart_delay_ms(1500, 3), 12000);
    assert_eq!(restart_delay_ms(1000, 8), 256_000);
}

#[test]
fn wait_is_capped_at_five_minutes() {
    assert_eq!(restart_delay_ms(1000, 9), 300_000);
    assert_eq!(restart_delay_ms(1500, 40), 300_000);
    assert_eq!(restart_delay_ms(1500, 64), 300_000);
    assert_eq!(restart_delay_ms(1500, u32::MAX), 300_000);
    assert_eq!(restart_delay_ms(u32::MAX, 0), 300_000);
    assert_eq!(restart_delay_ms(300_000, 0), 300_000);
    assert_eq!(restart_delay_ms(299_999, 0), 299_999);
}

#[test]
fn wait_is_bounded_and_monotone() {
    for throttle in [0u32, 1, 999, 1000, 1500, 70_000, 299_999, 300_000, u32::MAX] {
        let mut previous: u64 = 0;
        for attempts in 0u32..70 {
            let d: u64 = restart_delay_ms(throttle, attempts);
            assert!(d >= MIN_THROTTLE_MS && d <= MAX_RESTART_DELAY_MS);
            assert!(d >= previous);
            if attempts > 0 {
                assert_eq!(d, std::cmp::min(2 * previous, MAX_RESTART_DELAY_MS));
            }
            previous = d;
        }
    }
}
