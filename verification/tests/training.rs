use ralf_gesture_studio::engine::training::{
    play_capture_end, play_capture_start, play_complete, play_tick, AudioCue, SessionState,
    Tone, TrainingConfig, TrainingSession,
};

// A session without audio cues.
fn test_session() -> TrainingSession<Vec<f32>> {
    TrainingSession::with_audio(false)
}

#[test]
fn test_session_creation() {
    let session = test_session();
    assert_eq!(session.state, SessionState::Idle);
    assert_eq!(session.completed_reps, 0);
}

#[test]
fn test_session_start() {
    let mut session = test_session();
    let config = TrainingConfig {
        reps: 3,
        duration_ms: 2000,
        rest_ms: 1000,
        countdown_ms: 1000,
    };

    session.start(1, "wave", config, 0);

    assert_eq!(session.state, SessionState::Countdown);
    assert_eq!(session.gesture_id, 1);
    assert_eq!(session.gesture_name, "wave");
    assert_eq!(session.completed_reps, 0);
}

#[test]
fn test_session_cancel() {
    let mut session = test_session();
    session.start(1, "wave", TrainingConfig::default(), 0);

    session.cancel(10);

    assert_eq!(session.state, SessionState::Idle);
}

#[test]
fn test_countdown_to_capture() {
    let mut session = test_session();
    let config = TrainingConfig {
        reps: 1,
        duration_ms: 100,
        rest_ms: 100,
        countdown_ms: 50, // Very short for testing
    };

    session.start(1, "wave", config, 0);
    assert_eq!(session.state, SessionState::Countdown);

    // 100 ms later the countdown is over
    session.update(100);

    assert_eq!(session.state, SessionState::Capturing);
}

#[test]
fn test_capture_to_complete() {
    let mut session = test_session();
    let config = TrainingConfig {
        reps: 1,
        duration_ms: 50,
        rest_ms: 100,
        countdown_ms: 50,
    };

    session.start(1, "wave", config, 0);

    // Through the countdown
    session.update(100);
    assert_eq!(session.state, SessionState::Capturing);

    // Add some frames
    session.add_frame(vec![1.0, 2.0]);
    session.add_frame(vec![3.0, 4.0]);

    // Capture runs out
    session.update(200);

    // With only 1 rep, should go to Complete
    assert_eq!(session.state, SessionState::Complete);
    assert_eq!(session.completed_reps, 1);
    assert_eq!(session.completed_examples.len(), 1);
}

#[test]
fn test_multiple_reps() {
    let mut session = test_session();
    let config = TrainingConfig {
        reps: 2,
        duration_ms: 50,
        rest_ms: 50,
        countdown_ms: 50,
    };

    session.start(1, "wave", config, 0);

    // First rep: countdown
    session.update(100);
    assert_eq!(session.state, SessionState::Capturing);

    // First rep: capture
    session.add_frame(vec![1.0]);
    session.update(200);
    assert_eq!(session.state, SessionState::Resting);
    assert_eq!(session.completed_reps, 1);

    // Rest period
    session.update(300);
    assert_eq!(session.state, SessionState::Countdown);

    // Second rep: countdown
    session.update(400);
    assert_eq!(session.state, SessionState::Capturing);

    // Second rep: capture
    session.add_frame(vec![2.0]);
    session.update(500);

    assert_eq!(session.state, SessionState::Complete);
    assert_eq!(session.completed_reps, 2);
}

#[test]
fn test_progress() {
    let mut session = test_session();
    let config = TrainingConfig {
        reps: 1,
        duration_ms: 1000,
        rest_ms: 1000,
        countdown_ms: 1000,
    };

    session.start(1, "wave", config, 0);

    let progress = |s: &TrainingSession<Vec<f32>>, now: u64| {
        let target = s.state_target_ms();
        if target == 0 {
            0.0f32
        } else {
            (s.elapsed_ms(now) as f32 / target as f32).min(1.0)
        }
    };

    // Progress should start near 0
    assert!(progress(&session, 0) < 0.2);

    // After some time, progress should increase
    let p = progress(&session, 300);
    assert!(p > 0.2 && p < 0.5);
}

#[test]
fn test_remaining_secs() {
    let mut session = test_session();
    let config = TrainingConfig {
        reps: 1,
        duration_ms: 2000,
        rest_ms: 1000,
        countdown_ms: 3000,
    };

    session.start(1, "wave", config, 0);

    // Should have close to 3 seconds remaining
    let remaining = session.remaining_ms(1) as f32 / 1000.0;
    assert!(remaining > 2.5 && remaining <= 3.0);
}

#[test]
fn test_is_active() {
    let mut session = test_session();

    assert!(!session.is_active());

    session.start(1, "wave", TrainingConfig::default(), 0);
    assert!(session.is_active());

    session.cancel(5);
    assert!(!session.is_active());
}

#[test]
fn test_take_examples() {
    let mut session = test_session();
    let config = TrainingConfig {
        reps: 1,
        duration_ms: 50,
        rest_ms: 100,
        countdown_ms: 50,
    };

    session.start(1, "wave", config, 0);

    // Go through full session
    session.update(100);
    session.add_frame(vec![1.0, 2.0]);
    session.add_frame(vec![3.0, 4.0]);
    session.update(200);

    assert_eq!(session.state, SessionState::Complete);

    let examples = session.take_examples();
    assert_eq!(examples.len(), 1);
    assert_eq!(examples[0].len(), 2); // 2 frames

    // After taking, should be empty
    assert!(session.completed_examples.is_empty());
}

#[test]
fn tones_of_the_cues() {
    assert_eq!(play_tick(), Tone { freq_hz: 300, duration_ms: 80 });
    assert_eq!(play_capture_start(), Tone { freq_hz: 800, duration_ms: 300 });
    assert_eq!(play_capture_end(), Tone { freq_hz: 600, duration_ms: 300 });
    let (first, gap, second) = play_complete();
    assert_eq!(first, Tone { freq_hz: 1000, duration_ms: 150 });
    assert_eq!(gap, 200);
    assert_eq!(second, first);
}

#[test]
fn countdown_counts_whole_seconds_up() {
    let mut session = test_session();
    session.start(1, "wave", TrainingConfig { reps: 1, duration_ms: 1000, rest_ms: 1000, countdown_ms: 3000 }, 0);
    assert_eq!(session.countdown_value(0), 3);
    assert_eq!(session.countdown_value(1), 3);
    assert_eq!(session.countdown_value(1000), 2);
    assert_eq!(session.countdown_value(2999), 1);
    assert_eq!(session.countdown_value(3000), 0);
}

#[test]
fn frames_are_kept_only_while_capturing() {
    let mut session = test_session();
    session.add_frame(vec![0.5]);
    assert_eq!(session.current_frame_count(), 0);
    session.start(1, "wave", TrainingConfig { reps: 1, duration_ms: 100, rest_ms: 100, countdown_ms: 100 }, 0);
    session.add_frame(vec![0.5]);
    assert_eq!(session.current_frame_count(), 0);
    session.update(100);
    session.add_frame(vec![0.5]);
    assert_eq!(session.current_frame_count(), 1);
}

#[test]
fn audio_cues_follow_the_cycle() {
    let mut session: TrainingSession<Vec<f32>> = TrainingSession::new();
    session.start(1, "wave", TrainingConfig { reps: 1, duration_ms: 100, rest_ms: 100, countdown_ms: 1000 }, 0);
    assert!(session.take_cues().is_empty());
    session.update(0);
    let first = session.take_cues();
    assert_eq!(first, vec![AudioCue::Tick]);
    session.update(1000);
    assert_eq!(session.take_cues(), vec![AudioCue::CaptureStart]);
    session.update(1100);
    let cues = session.take_cues();
    assert_eq!(cues, vec![AudioCue::CaptureEnd, AudioCue::Complete]);
    assert!(session.take_cues().is_empty());
}
