use ralf_gesture_studio::engine::buffer::{FrameBuffer, RecordingSession};

#[test]
fn test_buffer_creation() {
    let buffer: FrameBuffer<f32> = FrameBuffer::new(100);
    assert_eq!(buffer.len(), 0);
    assert!(buffer.is_empty());
}

#[test]
fn test_buffer_push() {
    let mut buffer = FrameBuffer::new(100);
    buffer.push(vec![1.0, 2.0], 0);
    buffer.push(vec![3.0, 4.0], 16);

    assert_eq!(buffer.len(), 2);
    assert!(!buffer.is_empty());
}

#[test]
fn test_buffer_circular() {
    let mut buffer = FrameBuffer::new(3);
    buffer.push(vec![1.0], 0);
    buffer.push(vec![2.0], 1);
    buffer.push(vec![3.0], 2);
    buffer.push(vec![4.0], 3); // Should drop first frame

    assert_eq!(buffer.len(), 3);

    let frames = buffer.all_frames();
    assert_eq!(frames[0], vec![2.0]);
    assert_eq!(frames[1], vec![3.0]);
    assert_eq!(frames[2], vec![4.0]);
}

#[test]
fn test_buffer_recent_frames() {
    let mut buffer = FrameBuffer::new(10);
    for i in 0..5 {
        buffer.push(vec![i as f32], i as u64);
    }

    let recent = buffer.recent_frames(3);
    assert_eq!(recent.len(), 3);
    assert_eq!(recent[0], vec![2.0]);
    assert_eq!(recent[1], vec![3.0]);
    assert_eq!(recent[2], vec![4.0]);
}

#[test]
fn test_buffer_recent_frames_not_enough() {
    let mut buffer = FrameBuffer::new(10);
    buffer.push(vec![1.0], 0);
    buffer.push(vec![2.0], 1);

    let recent = buffer.recent_frames(5);
    assert_eq!(recent.len(), 2); // Only has 2 frames
}

#[test]
fn test_buffer_clear() {
    let mut buffer = FrameBuffer::new(10);
    buffer.push(vec![1.0], 0);
    buffer.push(vec![2.0], 1);
    buffer.clear();

    assert!(buffer.is_empty());
    assert_eq!(buffer.len(), 0);
}

#[test]
fn test_buffer_downsampled() {
    let mut buffer = FrameBuffer::new(100);

    // Add 60 frames (simulating 1 second at 60fps)
    for i in 0..60 {
        buffer.push(vec![i as f32], i as u64 * 16);
    }

    // Downsample to every 4th frame, get 15 frames (simulating 15fps)
    let downsampled = buffer.downsampled(15, 4);
    assert_eq!(downsampled.len(), 15);

    for i in 0..downsampled.len() - 1 {
        let diff = downsampled[i + 1][0] - downsampled[i][0];
        assert_eq!(diff, 4.0, "Frames should be 4 apart");
    }
}

#[test]
fn test_buffer_downsampled_not_enough_frames() {
    let mut buffer = FrameBuffer::new(100);

    // Add only 20 frames
    for i in 0..20 {
        buffer.push(vec![i as f32], i as u64 * 16);
    }

    // Request 15 frames at step 4 (would need 60 frames ideally)
    let downsampled = buffer.downsampled(15, 4);
    assert_eq!(downsampled.len(), 5); // 20 / 4 = 5 frames available
}

#[test]
fn test_buffer_frames_since() {
    let mut buffer = FrameBuffer::new(100);

    // Frames 50 ms apart
    buffer.push(vec![1.0], 1000);
    buffer.push(vec![2.0], 1050);
    buffer.push(vec![3.0], 1100);

    // Frames from the last 60 ms: the last two
    let recent = buffer.frames_since(60, 1100);
    assert!(!recent.is_empty());
    assert!(recent.len() <= 2);
    assert_eq!(recent, vec![vec![2.0], vec![3.0]]);
}

#[test]
fn buffer_times_span_and_last_arrival() {
    let mut buffer = FrameBuffer::new(10);
    assert_eq!(buffer.last_frame_time(), None);
    assert_eq!(buffer.duration(), None);
    buffer.push(vec![1u8], 200);
    buffer.push(vec![2u8], 260);
    assert_eq!(buffer.last_frame_time(), Some(260));
    assert_eq!(buffer.duration(), Some(60));
}

#[test]
fn test_recording_session_creation() {
    let now = 0;
    let session: RecordingSession<Vec<f32>> = RecordingSession::new(3000, now);
    assert!(!session.is_complete());
    assert_eq!(session.frame_count(), 0);
    let progress =
        (session.elapsed_ms(now) as f32 / session.target_duration_ms() as f32).min(1.0);
    assert!(progress < 0.1);
}

#[test]
fn test_recording_add_frames() {
    let mut session = RecordingSession::new(10_000, 0); // Long duration so it doesn't complete

    session.add_frame(vec![1.0, 2.0], 16);
    session.add_frame(vec![3.0, 4.0], 33);

    assert_eq!(session.frame_count(), 2);
    assert!(!session.is_complete());
}

#[test]
fn test_recording_into_frames() {
    let mut session = RecordingSession::new(10_000, 0);
    session.add_frame(vec![1.0], 16);
    session.add_frame(vec![2.0], 33);

    let frames = session.into_frames();
    assert_eq!(frames.len(), 2);
    assert_eq!(frames[0], vec![1.0]);
    assert_eq!(frames[1], vec![2.0]);
}

#[test]
fn test_recording_completes() {
    let mut session = RecordingSession::new(50, 0); // 50ms

    // Add frames 10 ms apart until complete
    for i in 0..100u64 {
        let complete = session.add_frame(vec![i as f32], i * 10);
        if complete {
            break;
        }
    }

    assert!(session.is_complete());
    assert_eq!(session.frame_count(), 6);
}

#[test]
fn test_recording_progress() {
    let session: RecordingSession<Vec<f32>> = RecordingSession::new(1000, 0);

    // Initially should be near 0
    let progress = |now: u64| {
        (session.elapsed_ms(now) as f32 / session.target_duration_ms() as f32).min(1.0)
    };
    assert!(progress(0) < 0.1);

    // After some time, should increase
    assert!(progress(100) >= 0.05);
    assert_eq!(session.remaining_ms(100), 900);
    assert_eq!(session.remaining_ms(5000), 0);
}
