use resilience_core::{renderer_recovery_backoff, RendererHealth};

#[test]
fn recovery_backoff_values_are_exact() {
    // min(2 * 2^(k-1), 30) for k = 1, 2, 3
    assert_eq!(renderer_recovery_backoff(1), 2);
    assert_eq!(renderer_recovery_backoff(2), 4);
    assert_eq!(renderer_recovery_backoff(3), 8);
    assert_eq!(renderer_recovery_backoff(4), 16);
    assert_eq!(renderer_recovery_backoff(5), 30);
    assert_eq!(renderer_recovery_backoff(50), 30);
}

#[test]
fn ready_at_zero_and_silence_until_25s_starts_attempt_one() {
    // Scenario: the UI signals ready at T=0 and sends no heartbeat. At the
    // T=25s check the stall (>= 20s) is detected; no recovery happened
    // before, so attempt 1 starts immediately and the counter becomes 1.
    let mut health = RendererHealth::new();
    health.mark_ready(0);
    // Checks inside the stall timeout do nothing.
    assert_eq!(health.check(5_000), None);
    assert_eq!(health.check(19_999), None);
    let snapshot = health.snapshot();
    assert_eq!(snapshot.recovery_attempts, 0);
    // The T=25s check detects the stall.
    assert_eq!(health.check(25_000), Some(1));
    assert_eq!(health.snapshot().recovery_attempts, 1);
    assert_eq!(health.snapshot().last_recovery, Some(25_000));
}

#[test]
fn heartbeat_resets_recovery_and_cancels_stall() {
    let mut health = RendererHealth::new();
    health.mark_ready(0);
    assert_eq!(health.check(25_000), Some(1));
    assert_eq!(health.check(50_000), Some(2));
    // A heartbeat resets the counters entirely...
    health.heartbeat(51_000);
    assert_eq!(health.snapshot().recovery_attempts, 0);
    assert_eq!(health.snapshot().last_recovery, None);
    // ...and a check within the stall timeout of it does nothing: the
    // counter stays 0 and no recovery starts.
    assert_eq!(health.check(60_000), None);
    assert_eq!(health.snapshot().recovery_attempts, 0);
}

#[test]
fn ready_signal_also_resets_recovery() {
    let mut health = RendererHealth::new();
    health.mark_ready(0);
    assert_eq!(health.check(25_000), Some(1));
    health.mark_ready(26_000);
    assert_eq!(health.snapshot().recovery_attempts, 0);
    assert_eq!(health.snapshot().last_recovery, None);
    assert_eq!(health.check(27_000), None);
}

#[test]
fn recovery_attempts_stop_at_three() {
    let mut health = RendererHealth::new();
    health.mark_ready(0);
    // Three stalled checks, far enough apart for every backoff, use up the
    // attempts.
    assert_eq!(health.check(100_000), Some(1));
    assert_eq!(health.check(200_000), Some(2));
    assert_eq!(health.check(300_000), Some(3));
    // The fourth stalled check does nothing at all.
    let before = health.snapshot();
    assert_eq!(health.check(400_000), None);
    let after = health.snapshot();
    assert_eq!(after.recovery_attempts, 3);
    assert_eq!(after.last_recovery, before.last_recovery);
    assert_eq!(after.last_heartbeat, before.last_heartbeat);
}

#[test]
fn recovery_attempts_respect_their_backoff() {
    let mut health = RendererHealth::new();
    health.mark_ready(0);
    assert_eq!(health.check(25_000), Some(1));
    // Attempt 2 needs min(2 * 2^1, 30) = 4s since the last recovery.
    assert_eq!(health.check(26_000), None);
    assert_eq!(health.check(28_999), None);
    assert_eq!(health.check(29_000), Some(2));
}

#[test]
fn not_ready_surface_is_never_recovered() {
    let mut health = RendererHealth::new();
    assert_eq!(health.check(1_000_000), None);
    health.heartbeat(0);
    // A heartbeat without a ready signal still does not arm the monitor.
    assert_eq!(health.check(1_000_000), None);
}
