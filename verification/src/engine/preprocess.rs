//! Preprocessing configuration and the joint layout of tracking systems.

use vstd::prelude::*;

use crate::text::same_text;

verus! {

/// Configuration for the preprocessing pipeline. Stored per-vocabulary.
#[derive(Debug, Clone, Copy, PartialEq, Eq, Structural)]
pub struct PreprocessingConfig {
    /// Subtract hip-center position from all joints (position invariance)
    pub hip_normalize: bool,
    /// Divide all coordinates by shoulder width (body-size invariance)
    pub scale_normalize: bool,
    /// Append first-derivative (velocity) features, doubling frame dimensionality
    pub velocity_features: bool,
    /// Append joint angle features (12 angles at major joints)
    pub angle_features: bool,
}

/// Number of joint-angle features appended when angle features are on.
pub const NUM_ANGLES: usize = 12;

impl Default for PreprocessingConfig {
    /// Hip and scale normalization on, velocity and angle features off.
    fn default() -> (r: Self)
        ensures
            r == (PreprocessingConfig {
                hip_normalize: true,
                scale_normalize: true,
                velocity_features: false,
                angle_features: false,
            }),
    {
        PreprocessingConfig {
            hip_normalize: true,
            scale_normalize: true,
            velocity_features: false,
            angle_features: false,
        }
    }
}

impl PreprocessingConfig {
    /// Output dimensionality for `raw_dims` input dimensions, as a number:
    /// angles add twelve values, velocity doubles everything before it.
    pub open spec fn spec_output_dimensions(&self, raw_dims: nat) -> nat {
        let with_angles = if self.angle_features { (raw_dims + NUM_ANGLES) as nat } else { raw_dims };
        if self.velocity_features { 2 * with_angles } else { with_angles }
    }

    /// True when the pipeline changes frame dimensionality.
    pub fn changes_dimensions(&self) -> (r: bool)
        ensures
            r == (self.velocity_features || self.angle_features),
    {
        self.velocity_features || self.angle_features
    }

    /// The number of values each preprocessed frame holds for `raw_dims` raw values.
    pub fn output_dimensions(&self, raw_dims: usize) -> (r: usize)
        requires
            self.spec_output_dimensions(raw_dims as nat) <= usize::MAX,
        ensures
            r == self.spec_output_dimensions(raw_dims as nat),
    {
        let with_angles = if self.angle_features {
            raw_dims + NUM_ANGLES
        } else {
            raw_dims
        };
        if self.velocity_features {
            with_angles * 2
        } else {
            with_angles
        }
    }
}

/// Joint index layout for a specific tracking system.
/// Maps semantic joint roles to joint numbers in the flat frame array.
#[derive(Debug, Clone, Copy, PartialEq, Eq, Structural)]
pub struct TrackingLayout {
    /// Number of raw input dimensions (e.g., 66 for 33 joints x XY)
    pub raw_dimensions: usize,
    /// Number of coordinates per joint (2 for XY, 3 for XYZ)
    pub coords_per_joint: usize,
    pub left_hip: usize,
    pub right_hip: usize,
    pub left_shoulder: usize,
    pub right_shoulder: usize,
    pub left_elbow: usize,
    pub right_elbow: usize,
    pub left_wrist: usize,
    pub right_wrist: usize,
    pub left_knee: usize,
    pub right_knee: usize,
    pub left_ankle: usize,
    pub right_ankle: usize,
    pub left_index: usize,
    pub right_index: usize,
}

/// The MediaPipe Pose 33-keypoint XY layout.
pub open spec fn mediapipe_layout() -> TrackingLayout {
    TrackingLayout {
        raw_dimensions: 66,
        coords_per_joint: 2,
        left_hip: 23,
        right_hip: 24,
        left_shoulder: 11,
        right_shoulder: 12,
        left_elbow: 13,
        right_elbow: 14,
        left_wrist: 15,
        right_wrist: 16,
        left_knee: 25,
        right_knee: 26,
        left_ankle: 27,
        right_ankle: 28,
        left_index: 19,
        right_index: 20,
    }
}

/// The name under which the MediaPipe layout is known.
pub open spec fn mediapipe_system_name() -> Seq<char> {
    seq!['m', 'e', 'd', 'i', 'a', 'p', 'i', 'p', 'e', '-', 'p', 'o', 's', 'e', '-', '3', '3', '-', 'x', 'y']
}

impl TrackingLayout {
    /// MediaPipe Pose 33-keypoint layout with XY coordinates.
    pub fn mediapipe_pose_33_xy() -> (l: Self)
        ensures
            l == mediapipe_layout(),
    {
        TrackingLayout {
            raw_dimensions: 66,
            coords_per_joint: 2,
            left_hip: 23,
            right_hip: 24,
            left_shoulder: 11,
            right_shoulder: 12,
            left_elbow: 13,
            right_elbow: 14,
            left_wrist: 15,
            right_wrist: 16,
            left_knee: 25,
            right_knee: 26,
            left_ankle: 27,
            right_ankle: 28,
            left_index: 19,
            right_index: 20,
        }
    }

    /// The starting array index of a joint: joint number times coordinates per joint.
    pub fn joint_offset(&self, joint: usize) -> (r: usize)
        requires
            joint * self.coords_per_joint <= usize::MAX,
        ensures
            r == joint * self.coords_per_joint,
    {
        joint * self.coords_per_joint
    }

    /// Number of joints in this layout.
    pub fn joint_count(&self) -> (r: usize)
        requires
            self.coords_per_joint > 0,
        ensures
            r == self.raw_dimensions / self.coords_per_joint,
    {
        self.raw_dimensions / self.coords_per_joint
    }
}

/// Resolve a `TrackingLayout` from a vocabulary's tracking-system name.
/// Returns `None` for unknown tracking systems (preprocessing is then skipped).
pub fn layout_for_tracking_system(tracking_system: &str) -> (r: Option<TrackingLayout>)
    ensures
        r == (if tracking_system@ == mediapipe_system_name() {
            Some(mediapipe_layout())
        } else {
            None::<TrackingLayout>
        }),
{
    let name = "mediapipe-pose-33-xy";
    proof {
        reveal_strlit("mediapipe-pose-33-xy");
    }
    assert(name@ =~= mediapipe_system_name());
    if same_text(tracking_system, name) {
        Some(TrackingLayout::mediapipe_pose_33_xy())
    } else {
        None
    }
}

} // verus!
