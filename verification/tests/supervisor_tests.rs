use resilience_core::{app_server_backoff, EpisodeAction, Supervisor};

#[test]
fn backoff_values_are_exact() {
    // min(2^(k-1), 30) for k = 1, 2, 3
    assert_eq!(app_server_backoff(1), 1);
    assert_eq!(app_server_backoff(2), 2);
    assert_eq!(app_server_backoff(3), 4);
    // The cap holds for later attempts.
    assert_eq!(app_server_backoff(5), 16);
    assert_eq!(app_server_backoff(6), 30);
    assert_eq!(app_server_backoff(60), 30);
    // An out-of-protocol attempt number 0 behaves like attempt 1.
    assert_eq!(app_server_backoff(0), 1);
}

#[test]
fn start_and_stop_replace_the_single_handle() {
    let mut sup = Supervisor::new();
    assert!(sup.needs_spawn());
    sup.note_spawned();
    assert!(!sup.needs_spawn());
    assert!(sup.worker_running());
    // A second start is a no-op: no spawn is needed while a live handle
    // exists.
    assert!(!sup.needs_spawn());
    sup.note_stopped();
    assert!(!sup.worker_running());
    assert!(sup.needs_spawn());
}

#[test]
fn episode_with_failures_runs_three_attempts_with_exact_backoffs() {
    let mut sup = Supervisor::new();
    sup.note_spawned();
    let mut ep = sup.note_disconnected();
    assert!(!sup.worker_running());

    // All attempts fail: the episode hands out attempts 1..=3 with backoffs
    // 1s, 2s, 4s, then rests.
    let mut seen = Vec::new();
    let mut now = 100u64;
    loop {
        match sup.episode_step(&mut ep, now) {
            EpisodeAction::Attempt { attempt, delay_secs } => {
                seen.push((attempt, delay_secs));
                now += delay_secs;
                sup.record_attempt(&mut ep, now, false);
            }
            EpisodeAction::Pause => panic!("rate limit must not trip here"),
            EpisodeAction::Rest => break,
        }
    }
    assert_eq!(seen, vec![(1, 1), (2, 2), (3, 4)]);
    // Every attempt, success or failure, left a timestamp in the window.
    // A later episode within the window sees all three.
    let mut ep2 = sup.note_disconnected();
    match sup.episode_step(&mut ep2, now) {
        EpisodeAction::Attempt { attempt, .. } => assert_eq!(attempt, 1),
        other => panic!("expected an attempt, got {:?}", other),
    }
}

#[test]
fn successful_restart_ends_the_episode() {
    let mut sup = Supervisor::new();
    sup.note_spawned();
    let mut ep = sup.note_disconnected();
    match sup.episode_step(&mut ep, 10) {
        EpisodeAction::Attempt { attempt, delay_secs } => {
            assert_eq!((attempt, delay_secs), (1, 1));
        }
        other => panic!("expected an attempt, got {:?}", other),
    }
    sup.record_attempt(&mut ep, 11, true);
    assert!(sup.worker_running());
    // The episode is over: further steps rest without touching anything.
    assert_eq!(sup.episode_step(&mut ep, 12), EpisodeAction::Rest);
    assert_eq!(sup.episode_step(&mut ep, 13), EpisodeAction::Rest);
}

#[test]
fn six_disconnects_in_sixty_seconds_pause_by_the_rate_limit() {
    // Scenario: the worker disconnects six times in quick succession. The
    // first episode runs attempts 1..=3 with backoffs 1s, 2s, 4s (all fail),
    // filling the window with three timestamps. The next episodes add one
    // timestamp each; by the fifth entry in the 300s window the sixth
    // episode pauses immediately, attempting nothing.
    let mut sup = Supervisor::new();
    sup.note_spawned();
    let mut now = 0u64;

    // Episode 1: three failing attempts with backoffs 1, 2, 4.
    let mut ep = sup.note_disconnected();
    let mut delays = Vec::new();
    loop {
        match sup.episode_step(&mut ep, now) {
            EpisodeAction::Attempt { delay_secs, .. } => {
                delays.push(delay_secs);
                now += delay_secs;
                sup.record_attempt(&mut ep, now, false);
            }
            EpisodeAction::Rest => break,
            EpisodeAction::Pause => panic!("no pause in episode 1"),
        }
    }
    assert_eq!(delays, vec![1, 2, 4]);

    // Episodes 2 and 3: one failing attempt each brings the window to 5.
    for _ in 0..2 {
        let mut ep = sup.note_disconnected();
        match sup.episode_step(&mut ep, now) {
            EpisodeAction::Attempt { delay_secs, .. } => {
                now += delay_secs;
                sup.record_attempt(&mut ep, now, false);
            }
            other => panic!("expected an attempt, got {:?}", other),
        }
        // Stop driving this episode after its first attempt: a new
        // disconnect supersedes it.
    }
    assert!(now <= 60);

    // Disconnects 4, 5 and 6: the window already holds 5 entries, so each
    // episode — the 6th included — pauses immediately, attempting nothing,
    // and emits the paused notification exactly once (after the pause it
    // only rests).
    for _ in 0..3 {
        let mut ep = sup.note_disconnected();
        assert_eq!(sup.episode_step(&mut ep, now), EpisodeAction::Pause);
        // No further pause or attempt for this episode.
        assert_eq!(sup.episode_step(&mut ep, now + 1), EpisodeAction::Rest);
        assert_eq!(sup.episode_step(&mut ep, now + 2), EpisodeAction::Rest);
    }
}

#[test]
fn window_prunes_entries_older_than_300_seconds() {
    let mut sup = Supervisor::new();
    sup.note_spawned();

    // Five failing attempts around t=0 fill the window.
    for _ in 0..5 {
        let mut ep = sup.note_disconnected();
        match sup.episode_step(&mut ep, 0) {
            EpisodeAction::Attempt { .. } => sup.record_attempt(&mut ep, 0, false),
            other => panic!("expected an attempt, got {:?}", other),
        }
    }
    // Immediately afterwards the rate limit trips.
    let mut ep = sup.note_disconnected();
    assert_eq!(sup.episode_step(&mut ep, 1), EpisodeAction::Pause);

    // 300 seconds later the entries have left the window and attempts
    // resume.
    let mut ep = sup.note_disconnected();
    match sup.episode_step(&mut ep, 300) {
        EpisodeAction::Attempt { attempt, .. } => assert_eq!(attempt, 1),
        other => panic!("expected an attempt, got {:?}", other),
    }
}
