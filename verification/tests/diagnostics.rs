use ralf_gesture_studio::engine::diagnostics::{DiagnosticKind, LogAction, LogSchedule};

#[test]
fn nothing_is_logged_while_off() {
    let mut s = LogSchedule::new();
    assert!(!s.is_enabled());
    assert_eq!(s.decide(DiagnosticKind::Hit), LogAction::Skip);
    assert_eq!(s.decide(DiagnosticKind::Recognition), LogAction::Skip);
}

#[test]
fn every_fourth_recognition_cycle_is_written() {
    let mut s = LogSchedule::new();
    s.enable();
    let actions: Vec<LogAction> = (0..8).map(|_| s.decide(DiagnosticKind::Recognition)).collect();
    let written: Vec<usize> = actions
        .iter()
        .enumerate()
        .filter(|(_, a)| **a == LogAction::Write)
        .map(|(i, _)| i)
        .collect();
    assert_eq!(written, vec![3, 7]);
    assert!(actions.iter().all(|a| *a != LogAction::WriteAndFlush));
}

#[test]
fn important_events_are_flushed() {
    let mut s = LogSchedule::new();
    s.enable();
    for kind in [
        DiagnosticKind::Hit,
        DiagnosticKind::NearMiss,
        DiagnosticKind::StateChange,
        DiagnosticKind::TrainingComplete,
    ] {
        assert_eq!(s.decide(kind), LogAction::WriteAndFlush);
    }
    s.disable();
    assert_eq!(s.decide(DiagnosticKind::Hit), LogAction::Skip);
}
