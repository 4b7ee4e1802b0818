use ralf_gesture_studio::osc::receiver::{
    accepts_address, frame_event, ConnectionStatus, OscReceiverHandle, OscReceiverState,
    ReceiverEvent,
};
use ralf_gesture_studio::osc::sender::{OscSenderState, SenderStatus};

fn handle() -> (crossbeam_channel::Sender<ReceiverEvent<f32>>, OscReceiverHandle<f32>) {
    let (tx, rx) = crossbeam_channel::unbounded();
    (tx, OscReceiverHandle::new(rx))
}

#[test]
fn test_receiver_creation() {
    let (_tx, handle) = handle();
    assert_eq!(handle.state.status, ConnectionStatus::Stopped);
    assert_eq!(handle.state.frame_count, 0);
}

#[test]
fn test_handle_polls_events() {
    let (tx, mut handle) = handle();

    tx.send(ReceiverEvent::StatusChanged(ConnectionStatus::Listening)).unwrap();

    handle.poll(0);
    assert_eq!(handle.state.status, ConnectionStatus::Listening);
}

#[test]
fn test_frame_count_increments() {
    let (tx, mut handle) = handle();

    tx.send(ReceiverEvent::Frame(vec![1.0, 2.0, 3.0])).unwrap();
    tx.send(ReceiverEvent::Frame(vec![4.0, 5.0, 6.0])).unwrap();

    handle.poll(0);
    assert_eq!(handle.state.frame_count, 2);
    assert_eq!(handle.state.status, ConnectionStatus::Receiving);
}

#[test]
fn test_legacy_66_float_frame_has_no_visibility() {
    let (tx, mut handle) = handle();

    let frame_66: Vec<f32> = (0..66).map(|i| i as f32).collect();
    tx.send(ReceiverEvent::Frame(frame_66.clone())).unwrap();

    let frames = handle.poll(0);
    assert_eq!(frames.len(), 1);
    assert_eq!(frames[0].coords, frame_66);
    assert!(frames[0].visibility.is_none());
}

#[test]
fn test_99_float_frame_extracts_visibility() {
    let (tx, mut handle) = handle();

    // 99 floats = 33 joints × (x, y, visibility)
    let mut frame_99 = Vec::with_capacity(99);
    for i in 0..33 {
        frame_99.push(i as f32 * 0.1); // x
        frame_99.push(i as f32 * 0.1 + 0.01); // y
        frame_99.push(1.0 - i as f32 * 0.02); // visibility
    }

    let event = frame_event(frame_99).unwrap();
    tx.send(event).unwrap();

    let frames = handle.poll(0);
    assert_eq!(frames.len(), 1);
    assert_eq!(frames[0].coords.len(), 66);
    let vis = frames[0].visibility.as_ref().unwrap();
    assert_eq!(vis.len(), 33);
    // First joint should have high visibility
    assert!((vis[0] - 1.0).abs() < 0.01);
    assert!((frames[0].coords[2] - 0.1).abs() < 1e-6);
    assert!((frames[0].coords[3] - 0.11).abs() < 1e-6);
}

#[test]
fn test_frame_with_visibility_increments_count() {
    let (tx, mut handle) = handle();

    tx.send(ReceiverEvent::FrameWithVisibility(vec![0.0; 66], vec![1.0; 33])).unwrap();

    handle.poll(0);
    assert_eq!(handle.state.frame_count, 1);
    assert_eq!(handle.state.status, ConnectionStatus::Receiving);
}

#[test]
fn errors_are_kept_and_time_since_frame_is_measured() {
    let (tx, mut handle) = handle();
    assert_eq!(handle.ms_since_last_frame(100), None);
    tx.send(ReceiverEvent::Frame(vec![1.0])).unwrap();
    tx.send(ReceiverEvent::Error("Receive error: boom".to_string())).unwrap();
    let frames = handle.poll(1000);
    assert_eq!(frames.len(), 1);
    assert_eq!(handle.state.status, ConnectionStatus::Error);
    assert_eq!(handle.state.error_message.as_deref(), Some("Receive error: boom"));
    assert_eq!(handle.ms_since_last_frame(1250), Some(250));
    assert_eq!(handle.ms_since_last_frame(900), Some(0));
}

#[test]
fn polling_an_empty_channel_changes_nothing() {
    let (_tx, mut handle) = handle();
    let frames = handle.poll(10);
    assert!(frames.is_empty());
    assert_eq!(handle.state.status, ConnectionStatus::Stopped);
    assert_eq!(handle.state.last_frame_time, None);
}

#[test]
fn applying_events_directly() {
    let mut state = OscReceiverState::default();
    let frames = state.apply_events(
        vec![
            ReceiverEvent::StatusChanged(ConnectionStatus::Listening),
            ReceiverEvent::Frame(vec![1u8]),
            ReceiverEvent::FrameWithVisibility(vec![2u8], vec![3u8]),
        ],
        42,
    );
    assert_eq!(frames.len(), 2);
    assert_eq!(frames[1].visibility, Some(vec![3u8]));
    assert_eq!(state.frame_count, 2);
    assert_eq!(state.last_frame_time, Some(42));
}

#[test]
fn addresses_taken_by_the_receiver() {
    assert!(accepts_address("/wek/inputs", "/wek/inputs"));
    assert!(accepts_address("/ralf/pose", "/wek/inputs"));
    assert!(!accepts_address("/other", "/wek/inputs"));
    assert!(!accepts_address("/wek/input", "/wek/inputs"));
}

#[test]
fn frame_events_by_length() {
    assert!(frame_event(Vec::<f32>::new()).is_none());
    match frame_event(vec![1.0f32; 66]) {
        Some(ReceiverEvent::Frame(v)) => assert_eq!(v.len(), 66),
        _ => panic!("66 values are a plain frame"),
    }
    match frame_event(vec![1.0f32; 98]) {
        Some(ReceiverEvent::Frame(v)) => assert_eq!(v.len(), 98),
        _ => panic!("98 values are a plain frame"),
    }
}

#[test]
fn test_sender_creation() {
    let state = OscSenderState::default();
    assert_eq!(state.status, SenderStatus::Ready);
    assert_eq!(state.send_count, 0);
}

#[test]
fn test_send_increments_count() {
    let mut state = OscSenderState::default();
    state.message_sent(10);
    assert_eq!(state.send_count, 1);
    assert!(state.last_send_time.is_some());
}

#[test]
fn test_ms_since_last_send() {
    let mut state = OscSenderState::default();
    assert!(state.ms_since_last_send(0).is_none());

    state.message_sent(500);
    let ms = state.ms_since_last_send(520);
    assert!(ms.is_some());
    assert!(ms.unwrap() < 1000); // Should be very recent
}

#[test]
fn sender_failure_and_recovery() {
    let mut state = OscSenderState::default();
    state.failed("Send failed: unreachable".to_string());
    assert_eq!(state.status, SenderStatus::Error);
    assert_eq!(state.error_message.as_deref(), Some("Send failed: unreachable"));
    assert_eq!(state.send_count, 0);
    state.socket_opened();
    assert_eq!(state.status, SenderStatus::Ready);
    assert!(state.error_message.is_none());
    state.message_sent(7);
    assert_eq!(state.status, SenderStatus::Sent);
    assert_eq!(state.last_send_time, Some(7));
}
