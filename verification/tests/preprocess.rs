use ralf_gesture_studio::engine::preprocess::{
    layout_for_tracking_system, PreprocessingConfig, TrackingLayout,
};

#[test]
fn test_layout_for_tracking_system() {
    assert!(layout_for_tracking_system("mediapipe-pose-33-xy").is_some());
    assert!(layout_for_tracking_system("kinect-v2-25").is_none());
    assert!(layout_for_tracking_system("").is_none());
}

#[test]
fn test_mediapipe_layout_constants() {
    let l = TrackingLayout::mediapipe_pose_33_xy();
    assert_eq!(l.raw_dimensions, 66);
    assert_eq!(l.coords_per_joint, 2);
    assert_eq!(l.joint_count(), 33);
    assert_eq!(l.joint_offset(23), 46); // Left hip
    assert_eq!(l.joint_offset(24), 48); // Right hip
    assert_eq!(l.joint_offset(11), 22); // Left shoulder
    assert_eq!(l.joint_offset(12), 24); // Right shoulder
}

#[test]
fn test_output_dimensions() {
    let no_vel = PreprocessingConfig {
        hip_normalize: true,
        scale_normalize: true,
        velocity_features: false,
        angle_features: false,
    };
    assert_eq!(no_vel.output_dimensions(66), 66);

    let vel = PreprocessingConfig {
        hip_normalize: false,
        scale_normalize: false,
        velocity_features: true,
        angle_features: false,
    };
    assert_eq!(vel.output_dimensions(66), 132);
}

#[test]
fn test_output_dimensions_with_angles() {
    let config = PreprocessingConfig {
        hip_normalize: false,
        scale_normalize: false,
        velocity_features: false,
        angle_features: true,
    };
    assert_eq!(config.output_dimensions(66), 78);
}

#[test]
fn test_output_dimensions_with_angles_and_velocity() {
    let config = PreprocessingConfig {
        hip_normalize: false,
        scale_normalize: false,
        velocity_features: true,
        angle_features: true,
    };
    // 66 + 12 angles = 78, then × 2 for velocity = 156
    assert_eq!(config.output_dimensions(66), 156);
}

#[test]
fn preprocessing_defaults_normalize_without_extra_features() {
    let config = PreprocessingConfig::default();
    assert!(config.hip_normalize);
    assert!(config.scale_normalize);
    assert!(!config.velocity_features);
    assert!(!config.angle_features);
    assert!(!config.changes_dimensions());
}

#[test]
fn only_velocity_or_angles_change_dimensions() {
    let mut config = PreprocessingConfig::default();
    config.velocity_features = true;
    assert!(config.changes_dimensions());
    config.velocity_features = false;
    config.angle_features = true;
    assert!(config.changes_dimensions());
}

#[test]
fn mediapipe_layout_joint_roles() {
    let l = layout_for_tracking_system("mediapipe-pose-33-xy").unwrap();
    assert_eq!(l, TrackingLayout::mediapipe_pose_33_xy());
    assert_eq!(l.left_hip, 23);
    assert_eq!(l.right_hip, 24);
    assert_eq!(l.left_shoulder, 11);
    assert_eq!(l.right_shoulder, 12);
}
