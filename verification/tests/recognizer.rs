use ralf_gesture_studio::engine::recognizer::{
    advance_machines, in_global_cooldown, window_size_after_example, DistanceHistory,
    FrameBuffer, FrameOutcome, FrameReading, GestureStateMachine, HitLog, RecognitionState,
    RecognitionWindow, StateMachineResult, DTW_SKIP,
};

const FRAMES_TO_FIRE: usize = 2;
const COOLDOWN_MS: u64 = 500;

// A gesture's machine fed with distances, the threshold comparisons done here.
struct Gesture {
    machine: GestureStateMachine,
    history: DistanceHistory<f32>,
    threshold: f32,
}

impl Gesture {
    fn new(threshold: f32) -> Self {
        Gesture { machine: GestureStateMachine::new(), history: DistanceHistory::new(), threshold }
    }

    fn feed_at(
        &mut self,
        distance: f32,
        frames_to_fire: usize,
        cooldown_ms: u64,
        suppressed: bool,
        now: u64,
    ) -> StateMachineResult {
        self.history.record(distance);
        let falling = match self.history.previous() {
            Some(prev) => distance < *prev,
            None => false,
        };
        let reading = FrameReading { below_entry: distance < self.threshold, falling };
        self.machine.process(reading, suppressed, frames_to_fire, cooldown_ms, now)
    }

    fn feed(&mut self, distance: f32, frames_to_fire: usize, suppressed: bool) -> StateMachineResult {
        self.feed_at(distance, frames_to_fire, COOLDOWN_MS, suppressed, 0)
    }

    fn state(&self) -> RecognitionState {
        self.machine.recognition_state()
    }
}

// Prime the history with a high value so the next low value registers as falling.
fn prime_history(g: &mut Gesture, frames_to_fire: usize) {
    g.feed(200.0, frames_to_fire, false);
    g.feed(200.0, frames_to_fire, false);
}

#[test]
fn test_gesture_state_creation() {
    let gesture = Gesture::new(15.0);
    assert_eq!(gesture.threshold, 15.0);
    assert_eq!(gesture.state(), RecognitionState::Idle);
    assert_eq!(gesture.machine.frames_below_threshold(), 0);
    assert_eq!(gesture.machine.last_hit_time(), None);
}

#[test]
fn test_gesture_cooldown() {
    let mut machine = GestureStateMachine::new();
    assert!(!machine.in_cooldown(500, 0));
    machine.record_hit(1000);
    assert!(machine.in_cooldown(500, 1000));
    assert!(!machine.in_cooldown(50, 1100));
}

#[test]
fn test_state_machine_idle_to_building() {
    let mut gesture = Gesture::new(100.0);
    prime_history(&mut gesture, FRAMES_TO_FIRE);

    // Distance below threshold and falling should transition to Building
    let result = gesture.feed(50.0, FRAMES_TO_FIRE, false);
    assert!(!result.should_fire);
    assert_eq!(gesture.state(), RecognitionState::Building);
    assert_eq!(gesture.machine.frames_below_threshold(), 1);
    assert!(result.transition.is_some());
    let t = result.transition.unwrap();
    assert_eq!(t.from_state, RecognitionState::Idle);
    assert_eq!(t.to_state, RecognitionState::Building);
}

#[test]
fn test_state_machine_building_to_peak() {
    let mut gesture = Gesture::new(100.0);
    let frames_to_fire = 3;
    prime_history(&mut gesture, frames_to_fire);

    gesture.feed(50.0, frames_to_fire, false); // Building, count=1
    assert_eq!(gesture.state(), RecognitionState::Building);

    gesture.feed(45.0, frames_to_fire, false); // Building, count=2
    assert_eq!(gesture.state(), RecognitionState::Building);

    let result = gesture.feed(40.0, frames_to_fire, false); // Peak!
    assert!(result.should_fire);
    assert_eq!(gesture.state(), RecognitionState::Peak);
    assert!(result.transition.is_some());
    let t = result.transition.unwrap();
    assert_eq!(t.to_state, RecognitionState::Peak);
    assert_eq!(t.reason, "accumulated_frames");
}

#[test]
fn test_state_machine_building_reset_on_rise() {
    let mut gesture = Gesture::new(100.0);
    prime_history(&mut gesture, FRAMES_TO_FIRE);
    gesture.feed(50.0, FRAMES_TO_FIRE, false); // Building (falling from 200)
    assert_eq!(gesture.state(), RecognitionState::Building);

    // Distance rises above threshold - should reset to Idle
    let result = gesture.feed(150.0, FRAMES_TO_FIRE, false);
    assert_eq!(gesture.state(), RecognitionState::Idle);
    assert_eq!(gesture.machine.frames_below_threshold(), 0);
    assert!(result.transition.is_some());
    let t = result.transition.unwrap();
    assert_eq!(t.to_state, RecognitionState::Idle);
    assert_eq!(t.reason, "above_threshold");
}

#[test]
fn test_state_machine_peak_to_recovery() {
    let mut gesture = Gesture::new(100.0);
    prime_history(&mut gesture, 1);

    // Falling below threshold: Idle → Building → Peak (fires)
    let result = gesture.feed(50.0, 1, false);
    assert!(result.should_fire, "Should fire when frames_to_fire=1");
    assert_eq!(gesture.state(), RecognitionState::Peak);

    // Next frame should transition Peak → Recovery
    let result = gesture.feed(50.0, 1, false);
    assert_eq!(gesture.state(), RecognitionState::Recovery);
    assert!(result.transition.is_some());
    let t = result.transition.unwrap();
    assert_eq!(t.from_state, RecognitionState::Peak);
    assert_eq!(t.to_state, RecognitionState::Recovery);
}

#[test]
fn test_state_machine_recovery_cooldown() {
    let mut gesture = Gesture::new(100.0);
    let cooldown_ms = 100;
    gesture.feed_at(200.0, 1, cooldown_ms, false, 0);
    gesture.feed_at(200.0, 1, cooldown_ms, false, 0);

    // Go to Peak and then Recovery (falling entry)
    gesture.feed_at(50.0, 1, cooldown_ms, false, 0); // Peak
    gesture.feed_at(50.0, 1, cooldown_ms, false, 0); // Recovery

    // Distance stays low — doesn't matter, recovery is time-based
    gesture.feed_at(50.0, 1, cooldown_ms, false, 0);

    // Less than the cooldown later
    gesture.feed_at(50.0, 1, cooldown_ms, false, 60);
    assert_eq!(gesture.state(), RecognitionState::Recovery);

    // The cooldown has passed (110 ms > 100 ms)
    let result = gesture.feed_at(50.0, 1, cooldown_ms, false, 110);
    assert_eq!(gesture.state(), RecognitionState::Idle);
    assert!(result.transition.is_some());
    let t = result.transition.unwrap();
    assert_eq!(t.to_state, RecognitionState::Idle);
    assert_eq!(t.reason, "cooldown_complete");
}

#[test]
fn test_global_cooldown_blocks_building_entry() {
    let mut gesture = Gesture::new(100.0);
    prime_history(&mut gesture, FRAMES_TO_FIRE);

    // Below threshold and falling, but global cooldown active → stay in Idle
    let result = gesture.feed(50.0, FRAMES_TO_FIRE, true);
    assert!(!result.should_fire);
    assert_eq!(gesture.state(), RecognitionState::Idle);
    assert!(result.transition.is_none()); // No transition — suppressed

    // Without global cooldown → enters Building (still falling from 50 to 40)
    let result = gesture.feed(40.0, FRAMES_TO_FIRE, false);
    assert!(!result.should_fire);
    assert_eq!(gesture.state(), RecognitionState::Building);
}

#[test]
fn test_state_machine_slope_check_blocks_flat_entry() {
    // Flat distances below threshold should NOT enter Building
    let mut gesture = Gesture::new(100.0);
    gesture.feed(50.0, FRAMES_TO_FIRE, false);
    gesture.feed(50.0, FRAMES_TO_FIRE, false);
    gesture.feed(50.0, FRAMES_TO_FIRE, false);
    assert_eq!(gesture.state(), RecognitionState::Idle);

    // Rising distances below threshold should also NOT enter Building
    let mut gesture2 = Gesture::new(100.0);
    gesture2.feed(40.0, FRAMES_TO_FIRE, false);
    gesture2.feed(50.0, FRAMES_TO_FIRE, false); // rising
    gesture2.feed(60.0, FRAMES_TO_FIRE, false); // still rising
    assert_eq!(gesture2.state(), RecognitionState::Idle);
}

#[test]
fn test_state_machine_slope_check_allows_falling_entry() {
    let mut gesture = Gesture::new(100.0);
    gesture.feed(150.0, FRAMES_TO_FIRE, false);
    gesture.feed(120.0, FRAMES_TO_FIRE, false); // Falling
    gesture.feed(90.0, FRAMES_TO_FIRE, false); // Falling, below threshold
    assert_eq!(gesture.state(), RecognitionState::Building);
}

#[test]
fn test_recognizer_creation() {
    let window: RecognitionWindow<f32> = RecognitionWindow::new(1000, 100);
    assert!(!window.is_active());
    assert_eq!(window.window_size(), 100);
    assert_eq!(window.buffer_len(), 0);
}

#[test]
fn test_recognizer_add_example() {
    // The first example sets the window; later ones leave it.
    assert_eq!(window_size_after_example(100, 0, 2), 2);
    assert_eq!(window_size_after_example(2, 1, 7), 2);
    assert_eq!(window_size_after_example(0, 3, 7), 7);
}

#[test]
fn test_recognizer_process_frame_inactive() {
    let mut window = RecognitionWindow::new(1000, 10);
    let outcome = window.take_frame(vec![1.0f32]);
    assert!(matches!(outcome, FrameOutcome::Buffered));
    assert_eq!(window.buffer_len(), 1);
}

#[test]
fn frames_of_another_dimension_are_rejected() {
    let mut window = RecognitionWindow::new(10, 2);
    window.start();
    assert!(matches!(window.take_frame(vec![1.0f32, 2.0]), FrameOutcome::Buffered));
    assert!(matches!(window.take_frame(vec![1.0f32]), FrameOutcome::Rejected));
    assert_eq!(window.buffer_len(), 1);
    assert_eq!(window.frame_count(), 1);
}

#[test]
fn matching_runs_on_every_fourth_frame_once_the_window_is_full() {
    let mut window = RecognitionWindow::new(100, 8);
    window.start();
    let mut outcomes = Vec::new();
    for i in 0..12u32 {
        let o = window.take_frame(vec![i]);
        outcomes.push(match o {
            FrameOutcome::Rejected => 'r',
            FrameOutcome::Buffered => 'b',
            FrameOutcome::Skipped => 's',
            FrameOutcome::Match(w) => {
                // The window's eight frames at a quarter rate: 2 frames, 4 apart.
                assert_eq!(w.len(), 2);
                assert_eq!(w[1][0] - w[0][0], 4);
                assert_eq!(w[1][0], i - 3);
                'm'
            }
        });
    }
    assert_eq!(DTW_SKIP, 4);
    let s: String = outcomes.into_iter().collect();
    assert_eq!(s, "bbbbbbbmsssm");
}

#[test]
fn clearing_the_buffer_empties_the_window() {
    let mut window = RecognitionWindow::new(100, 2);
    window.start();
    window.take_frame(vec![1u8]);
    window.take_frame(vec![2u8]);
    window.clear_buffer();
    assert_eq!(window.buffer_len(), 0);
    window.stop();
    assert!(!window.is_active());
}

#[test]
fn only_the_best_gesture_builds() {
    let mut machines = vec![GestureStateMachine::new(), GestureStateMachine::new()];
    let has_distance = vec![true, true];
    let falling = FrameReading { below_entry: true, falling: true };
    // Gesture 0 builds first.
    advance_machines(&mut machines, &has_distance, Some(0), falling, false, 3, 500, 0);
    assert_eq!(machines[0].recognition_state(), RecognitionState::Building);
    // Gesture 1 becomes the best: gesture 0 is reset.
    let r = advance_machines(&mut machines, &has_distance, Some(1), falling, false, 3, 500, 10);
    assert!(r.is_some());
    assert_eq!(machines[0].recognition_state(), RecognitionState::Idle);
    assert_eq!(machines[1].recognition_state(), RecognitionState::Building);
}

#[test]
fn global_cooldown_window() {
    assert!(!in_global_cooldown(None, 1000, 5000));
    assert!(in_global_cooldown(Some(4500), 1000, 5000));
    assert!(!in_global_cooldown(Some(4000), 1000, 5000));
}

#[test]
fn distance_history_keeps_three() {
    let mut h = DistanceHistory::new();
    assert!(h.previous().is_none());
    for d in [5.0f32, 4.0, 3.0, 2.0] {
        h.record(d);
    }
    assert_eq!(h.len(), 3);
    assert_eq!(h.previous(), Some(&3.0));
}

#[test]
fn recognizer_buffer_keeps_newest() {
    let mut b = FrameBuffer::new(2);
    assert_eq!(b.frame_dimensions(), None);
    b.push(vec![1, 1]);
    b.push(vec![2, 2]);
    b.push(vec![3, 3]);
    assert_eq!(b.len(), 2);
    assert_eq!(b.frame_dimensions(), Some(2));
    assert_eq!(b.recent(5), vec![vec![2, 2], vec![3, 3]]);
    b.clear();
    assert_eq!(b.len(), 0);
}

#[test]
fn test_hit_log() {
    let mut log = HitLog::new(10);
    log.record(1, "wave", 42.0f32, "/gesture/1", 0);
    log.record(2, "jump", 55.0f32, "/gesture/2", 10);
    assert_eq!(log.len(), 2);
    let recent = log.recent(5);
    assert_eq!(recent.len(), 2);
    assert_eq!(recent[0].gesture_name, "jump");
}

#[test]
fn test_hit_log_max_entries() {
    let mut log = HitLog::new(3);
    for i in 0..5u32 {
        log.record(i, &format!("gesture{}", i), i as f32, "/test", i as u64);
    }
    assert_eq!(log.len(), 3);
    let recent = log.recent(5);
    assert_eq!(recent[0].gesture_name, "gesture4");
}

#[test]
fn state_names() {
    assert_eq!(RecognitionState::Idle.name(), "Idle");
    assert_eq!(RecognitionState::Building.name(), "Building");
    assert_eq!(RecognitionState::Peak.name(), "Peak");
    assert_eq!(RecognitionState::Recovery.name(), "Recovery");
}

#[test]
fn a_cleared_buffer_refills_before_matching() {
    let mut window = RecognitionWindow::new(100, 8);
    window.start();
    for i in 0..12u32 {
        window.take_frame(vec![i]);
    }
    window.clear_buffer();
    for i in 0..7u32 {
        assert!(!matches!(window.take_frame(vec![i]), FrameOutcome::Match(_)));
    }
    // The eighth frame fills the window, and it is a matching frame (20 frames seen).
    assert!(matches!(window.take_frame(vec![7]), FrameOutcome::Match(_)));
}

#[test]
fn a_hit_starts_the_global_cooldown_and_empties_the_buffer() {
    let mut window = RecognitionWindow::new(100, 4);
    window.start();
    for i in 0..6u32 {
        window.take_frame(vec![i]);
    }
    let mut last_any_hit = None;
    window.after_hit(&mut last_any_hit, 5000);
    assert_eq!(last_any_hit, Some(5000));
    assert_eq!(window.buffer_len(), 0);
    assert!(window.is_active());
    assert!(in_global_cooldown(last_any_hit, 1000, 5999));
    assert!(!in_global_cooldown(last_any_hit, 1000, 6000));
}
