use ralf_gesture_studio::engine::augmentation::AugmentationConfig;
use ralf_gesture_studio::engine::recognizer::HitLog;
use ralf_gesture_studio::engine::training::{SessionState, TrainingConfig, TrainingSession};
use ralf_gesture_studio::gui::{
    check_dimensions, flashing_hit_name, frames_to_process, input_status_label,
    manual_after_toggle, mode_switch, output_status_label, selection_after_delete,
    shown_example_position, training_config_from_secs, training_state_label, AppMode,
    AugmentationConfigDto, DimensionVerdict, ExampleDto, HitLogDto, ModeSwitch, OscStatusDto,
    TrainingCountsDto, hit_address,
};
use ralf_gesture_studio::osc::receiver::{ConnectionStatus, OscReceiverState};
use ralf_gesture_studio::osc::sender::{OscSenderState, SenderStatus};

#[test]
fn status_labels() {
    assert_eq!(input_status_label(ConnectionStatus::Stopped), "Stopped");
    assert_eq!(input_status_label(ConnectionStatus::Listening), "Listening");
    assert_eq!(input_status_label(ConnectionStatus::Receiving), "Receiving");
    assert_eq!(input_status_label(ConnectionStatus::Error), "Error");
    assert_eq!(output_status_label(SenderStatus::Ready), "Ready");
    assert_eq!(output_status_label(SenderStatus::Sent), "Sent");
    assert_eq!(output_status_label(SenderStatus::Error), "Error");
    assert_eq!(training_state_label(SessionState::Idle), "idle");
    assert_eq!(training_state_label(SessionState::Countdown), "countdown");
    assert_eq!(training_state_label(SessionState::Capturing), "capturing");
    assert_eq!(training_state_label(SessionState::Resting), "resting");
    assert_eq!(training_state_label(SessionState::Complete), "complete");
}

#[test]
fn osc_status_before_any_traffic() {
    let receiver = OscReceiverState::default();
    let sender = OscSenderState::default();
    let dto = OscStatusDto::from_state(&receiver, &sender, None, 5000);
    assert_eq!(dto.input_status, "Stopped");
    assert_eq!(dto.ms_since_last_frame, 0);
    assert_eq!(dto.output_status, "Ready");
    assert_eq!(dto.ms_since_last_send, 0);
    assert_eq!(dto.frame_count, 0);
    assert_eq!(dto.send_count, 0);
    assert!(dto.input_error.is_none() && dto.output_error.is_none());
    assert!(dto.dimension_mismatch_expected.is_none());
    assert!(dto.dimension_mismatch_actual.is_none());
}

#[test]
fn osc_status_with_traffic_and_mismatch() {
    let mut receiver = OscReceiverState::default();
    receiver.status = ConnectionStatus::Receiving;
    receiver.frame_count = 12;
    receiver.last_frame_time = Some(900);
    let mut sender = OscSenderState::default();
    sender.message_sent(400);
    sender.failed("Send failed".to_string());
    let dto = OscStatusDto::from_state(&receiver, &sender, Some((66, 99)), 1000);
    assert_eq!(dto.input_status, "Receiving");
    assert_eq!(dto.ms_since_last_frame, 100);
    assert_eq!(dto.frame_count, 12);
    assert_eq!(dto.output_status, "Error");
    assert_eq!(dto.ms_since_last_send, 600);
    assert_eq!(dto.output_error.as_deref(), Some("Send failed"));
    assert_eq!(dto.send_count, 1);
    assert_eq!(dto.dimension_mismatch_expected, Some(66));
    assert_eq!(dto.dimension_mismatch_actual, Some(99));
}

#[test]
fn hit_log_shows_ten_newest_with_recency() {
    let mut log = HitLog::new(100);
    for i in 0..12u64 {
        log.record(i as u32, &format!("g{}", i), 1.0f32, "/x", i * 1000);
    }
    let dto = HitLogDto::from_log(&log, 12_500);
    assert_eq!(dto.total, 12);
    assert_eq!(dto.entries.len(), 10);
    assert_eq!(dto.entries[0].name, "g11");
    assert_eq!(dto.entries[0].ms_ago, 1500);
    assert!(dto.entries[0].recent);
    assert_eq!(dto.entries[1].ms_ago, 2500);
    assert!(!dto.entries[1].recent);
    assert_eq!(dto.entries[9].name, "g2");
}

#[test]
fn flashing_hit_lasts_three_hundred_ms() {
    let mut log: HitLog<f32> = HitLog::new(10);
    assert!(flashing_hit_name(&log, 0).is_none());
    log.record(1, "wave", 3.0, "/gesture/1", 1000);
    assert_eq!(flashing_hit_name(&log, 1299).as_deref(), Some("wave"));
    assert!(flashing_hit_name(&log, 1300).is_none());
}

#[test]
fn mode_switches() {
    assert_eq!(mode_switch(AppMode::Training, AppMode::Training), ModeSwitch::Unchanged);
    assert_eq!(mode_switch(AppMode::Training, AppMode::Performance), ModeSwitch::StartRecognition);
    assert_eq!(mode_switch(AppMode::Performance, AppMode::Training), ModeSwitch::StopRecognition);
    assert_eq!(mode_switch(AppMode::Performance, AppMode::Performance), ModeSwitch::Unchanged);
}

#[test]
fn performance_mode_keeps_only_the_latest_frame() {
    assert_eq!(frames_to_process(AppMode::Performance, vec![1, 2, 3]), vec![3]);
    assert_eq!(frames_to_process(AppMode::Training, vec![1, 2, 3]), vec![1, 2, 3]);
    assert_eq!(frames_to_process(AppMode::Performance, vec![7]), vec![7]);
    assert!(frames_to_process::<u8>(AppMode::Performance, vec![]).is_empty());
}

#[test]
fn dimension_mismatch_is_reported_once_and_cleared() {
    let mut mismatch = None;
    assert_eq!(check_dimensions(66, 66, &mut mismatch), DimensionVerdict::Accept { resumed: false });
    assert_eq!(check_dimensions(66, 99, &mut mismatch), DimensionVerdict::Reject { newly_seen: true });
    assert_eq!(mismatch, Some((66, 99)));
    assert_eq!(check_dimensions(66, 99, &mut mismatch), DimensionVerdict::Reject { newly_seen: false });
    assert_eq!(check_dimensions(66, 3, &mut mismatch), DimensionVerdict::Reject { newly_seen: true });
    assert_eq!(check_dimensions(66, 66, &mut mismatch), DimensionVerdict::Accept { resumed: true });
    assert_eq!(mismatch, None);
}

#[test]
fn selection_after_deleting() {
    assert_eq!(selection_after_delete(Some(2), 2, Some(1)), Some(1));
    assert_eq!(selection_after_delete(Some(2), 2, None), None);
    assert_eq!(selection_after_delete(Some(3), 2, Some(1)), Some(3));
    assert_eq!(selection_after_delete(None, 2, Some(1)), None);
}

#[test]
fn toggling_threshold_mode() {
    assert!(manual_after_toggle(false, false));
    assert!(manual_after_toggle(false, true));
    assert!(!manual_after_toggle(true, true));
    assert!(manual_after_toggle(true, false));
}

#[test]
fn training_timings_in_seconds() {
    let c = training_config_from_secs(4, 3, 2, 1);
    assert_eq!((c.reps, c.countdown_ms, c.duration_ms, c.rest_ms), (4, 3000, 2000, 1000));
    let big = training_config_from_secs(1, u32::MAX, 0, 0);
    assert_eq!(big.countdown_ms, u32::MAX as u64 * 1000);
}

#[test]
fn small_transfer_objects() {
    let config = AugmentationConfig { enabled: true, multiplier: 4, ..Default::default() };
    let dto = AugmentationConfigDto::from_config(&config);
    assert_eq!(dto, AugmentationConfigDto { enabled: true, multiplier: 4 });
    let ex = ExampleDto { frame_count: 120 };
    assert_eq!(ex.frame_count, 120);
    assert_eq!(shown_example_position(3, 0), 4);
}

#[test]
fn training_counts_as_shown() {
    let mut session: TrainingSession<Vec<f32>> = TrainingSession::with_audio(false);
    let idle = TrainingCountsDto::from_session(&session, 0);
    assert_eq!(idle.state, "idle");
    assert_eq!(idle.gesture_id, None);
    assert_eq!((idle.countdown, idle.current_rep, idle.completed_reps, idle.frame_count), (0, 1, 0, 0));
    session.start(7, "wave", TrainingConfig { reps: 3, duration_ms: 100, rest_ms: 100, countdown_ms: 2500 }, 0);
    let counting = TrainingCountsDto::from_session(&session, 100);
    assert_eq!(counting.state, "countdown");
    assert_eq!(counting.gesture_id, Some(7));
    assert_eq!(counting.countdown, 3);
    assert_eq!(counting.total_reps, 3);
    session.update(2500);
    session.add_frame(vec![1.0]);
    session.add_frame(vec![2.0]);
    let capturing = TrainingCountsDto::from_session(&session, 2550);
    assert_eq!(capturing.state, "capturing");
    assert_eq!(capturing.frame_count, 2);
    session.update(2600);
    let resting = TrainingCountsDto::from_session(&session, 2600);
    assert_eq!((resting.completed_reps, resting.current_rep), (1, 2));
}

#[test]
fn hits_go_to_the_gesture_address() {
    assert_eq!(hit_address(Some("/custom".to_string()), 3), "/custom");
    assert_eq!(hit_address(None, 3), "/gesture/3");
    assert_eq!(hit_address(None, 0), "/gesture/0");
}
