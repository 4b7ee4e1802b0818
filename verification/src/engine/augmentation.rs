//! Augmentation planning: the configuration, the deterministic seeds of the
//! augmented copies, and the left/right joint exchange of a horizontal mirror.
//!
//! The random draws and the arithmetic on coordinates (stretching, jitter,
//! negating X) work on floating-point data and are done by the caller; this
//! module fixes how many copies are made, which seed each copy gets, and which
//! coordinate ends up where when a pose is mirrored.

use vstd::prelude::*;

verus! {

/// Vocabulary-level augmentation configuration.
#[derive(Debug, Clone, Copy, PartialEq, Eq, Structural)]
pub struct AugmentationConfig {
    /// Master enable/disable toggle
    pub enabled: bool,
    /// Number of augmented copies per real example (1–5)
    pub multiplier: u32,
    /// Enable temporal stretch (0.85x–1.15x speed variation)
    pub temporal_stretch: bool,
    /// Enable spatial jitter (Gaussian noise)
    pub spatial_jitter: bool,
    /// Enable horizontal mirror (swap left/right joints + negate X)
    pub horizontal_mirror: bool,
}

/// Copies per example when a stored configuration does not say.
pub fn default_multiplier() -> (r: u32)
    ensures
        r == 2,
{
    2
}

/// Technique toggles are on when a stored configuration does not say.
pub fn default_true() -> (r: bool)
    ensures
        r,
{
    true
}

impl Default for AugmentationConfig {
    /// Off by default (the user opts in), two copies, every technique on.
    fn default() -> (r: Self)
        ensures
            r == (AugmentationConfig {
                enabled: false,
                multiplier: 2,
                temporal_stretch: true,
                spatial_jitter: true,
                horizontal_mirror: true,
            }),
    {
        AugmentationConfig {
            enabled: false,
            multiplier: 2,
            temporal_stretch: true,
            spatial_jitter: true,
            horizontal_mirror: true,
        }
    }
}

/// Start value of the seed mix.
pub const SEED_BASIS: u64 = 0x517c_c1b7_2722_0a95;

/// Multiplier of the seed mix.
pub const SEED_MULTIPLIER: u64 = 6_364_136_223_846_793_005;

/// One round of the seed mix: multiply and add, modulo 2^64.
pub open spec fn mix(h: u64, v: u64) -> u64 {
    ((h as nat * SEED_MULTIPLIER as nat + v as nat) % 0x1_0000_0000_0000_0000) as u64
}

/// The seed of copy `copy_index` of example `example_index` of gesture `gesture_id`.
pub open spec fn seed_of(gesture_id: u32, example_index: usize, copy_index: usize) -> u64 {
    mix(mix(mix(SEED_BASIS, gesture_id as u64), example_index as u64), copy_index as u64)
}

fn mix_step(h: u64, v: u64) -> (r: u64)
    ensures
        r == mix(h, v),
{
    let r = h.wrapping_mul(SEED_MULTIPLIER).wrapping_add(v);
    proof {
        let m: nat = 0x1_0000_0000_0000_0000;
        let p: nat = (h as nat * SEED_MULTIPLIER as nat) % m;
        assert(h.wrapping_mul(SEED_MULTIPLIER) == p);
        assert((p + v as nat) % m == (h as nat * SEED_MULTIPLIER as nat + v as nat) % m) by {
            vstd::arithmetic::div_mod::lemma_add_mod_noop(
                (h as nat * SEED_MULTIPLIER as nat) as int,
                v as int,
                m as int,
            );
            vstd::arithmetic::div_mod::lemma_small_mod(v as nat, m);
            vstd::arithmetic::div_mod::lemma_mod_twice(
                (h as nat * SEED_MULTIPLIER as nat) as int,
                m as int,
            );
        }
        if p + v > u64::MAX {
            assert((p + v as nat) % m == (p + v - m) as nat) by {
                vstd::arithmetic::div_mod::lemma_mod_add_multiples_vanish(
                    (p + v - m) as int,
                    m as int,
                );
                vstd::arithmetic::div_mod::lemma_small_mod((p + v - m) as nat, m);
            }
        } else {
            vstd::arithmetic::div_mod::lemma_small_mod(p + v as nat, m);
        }
    }
    r
}

/// Create a deterministic seed from gesture_id, example_index, and copy_index.
pub fn deterministic_seed(gesture_id: u32, example_index: usize, copy_index: usize) -> (r: u64)
    ensures
        r == seed_of(gesture_id, example_index, copy_index),
{
    let mut h: u64 = SEED_BASIS;
    h = mix_step(h, gesture_id as u64);
    h = mix_step(h, example_index as u64);
    h = mix_step(h, copy_index as u64);
    h
}

/// The seeds of the augmented copies of one example, in copy order: none when
/// augmentation is off or the example holds no frame, else one per copy.
pub fn copy_seeds(
    config: &AugmentationConfig,
    example_len: usize,
    gesture_id: u32,
    example_index: usize,
) -> (r: Vec<u64>)
    ensures
        !config.enabled || example_len == 0 ==> r@.len() == 0,
        config.enabled && example_len > 0 ==> r@.len() == config.multiplier,
        forall|i: int|
            0 <= i < r@.len() ==> #[trigger] r@[i] == seed_of(gesture_id, example_index, i as usize),
{
    let mut seeds: Vec<u64> = Vec::new();
    if !config.enabled || example_len == 0 {
        return seeds;
    }
    let n = config.multiplier;
    let mut k: u32 = 0;
    while k < n
        invariant
            k <= n,
            n == config.multiplier,
            seeds@.len() == k,
            forall|i: int|
                0 <= i < seeds@.len() ==> #[trigger] seeds@[i] == seed_of(
                    gesture_id,
                    example_index,
                    i as usize,
                ),
        decreases n - k,
    {
        let s = deterministic_seed(gesture_id, example_index, k as usize);
        seeds.push(s);
        k = k + 1;
    }
    seeds
}

/// Coordinates stored per joint in the MediaPipe XY layout.
pub const COORDS_PER_JOINT: usize = 2;

/// A frame takes part in mirroring only from this many values on (33 joints × XY).
pub const MIN_MIRROR_DIMS: usize = 66;

/// The joint that takes the place of `j` in a horizontal mirror of a MediaPipe
/// 33-keypoint pose: eyes (1–3 with 4–6) and every left/right pair from the
/// ears (7, 8) to the feet (31, 32) exchange; the nose stays.
pub open spec fn mirror_joint(j: int) -> int {
    if 1 <= j <= 3 {
        j + 3
    } else if 4 <= j <= 6 {
        j - 3
    } else if 7 <= j <= 32 {
        if j % 2 == 1 {
            j + 1
        } else {
            j - 1
        }
    } else {
        j
    }
}

/// Where value `i` of a mirrored frame is taken from.
pub open spec fn mirror_index(i: int) -> int {
    if 0 <= i < MIN_MIRROR_DIMS {
        mirror_joint(i / 2) * 2 + i % 2
    } else {
        i
    }
}

/// A frame with its left and right joints exchanged; shorter frames stay as they are.
pub open spec fn mirrored<T>(frame: Seq<T>) -> Seq<T> {
    if frame.len() < MIN_MIRROR_DIMS {
        frame
    } else {
        Seq::new(frame.len(), |i: int| frame[mirror_index(i)])
    }
}

proof fn lemma_mirror_index(i: int)
    requires
        0 <= i < MIN_MIRROR_DIMS,
    ensures
        0 <= mirror_index(i) < MIN_MIRROR_DIMS,
        mirror_index(mirror_index(i)) == i,
{
    let j = i / 2;
    let c = i % 2;
    assert(0 <= j < 33 && 0 <= c < 2 && i == j * 2 + c);
    let m = mirror_joint(j);
    assert(0 <= m < 33 && mirror_joint(m) == j);
    assert((m * 2 + c) / 2 == m && (m * 2 + c) % 2 == c);
}

/// Mirroring twice gives back the frame: the exchange of left and right joints
/// is its own inverse.
pub proof fn mirroring_twice_restores<T>(frame: Seq<T>)
    ensures
        mirrored(mirrored(frame)) == frame,
{
    if frame.len() >= MIN_MIRROR_DIMS {
        let once = mirrored(frame);
        assert forall|i: int| 0 <= i < frame.len() implies #[trigger] mirrored(once)[i]
            == frame[i] by {
            if i < MIN_MIRROR_DIMS {
                lemma_mirror_index(i);
            }
        }
        assert(mirrored(once) =~= frame);
    }
}

/// The MediaPipe left/right joint pairs, `(left, right)`, numbered 0 to 15: the inner
/// eyes, eyes, outer eyes, ears, mouth corners, shoulders, elbows, wrists, pinkies,
/// index fingers, thumbs, hips, knees, ankles, heels and foot tips.
pub open spec fn mediapipe_mirror_pair(k: int) -> (int, int) {
    if k == 0 { (1, 4) }
    else if k == 1 { (2, 5) }
    else if k == 2 { (3, 6) }
    else if k == 3 { (7, 8) }
    else if k == 4 { (9, 10) }
    else if k == 5 { (11, 12) }
    else if k == 6 { (13, 14) }
    else if k == 7 { (15, 16) }
    else if k == 8 { (17, 18) }
    else if k == 9 { (19, 20) }
    else if k == 10 { (21, 22) }
    else if k == 11 { (23, 24) }
    else if k == 12 { (25, 26) }
    else if k == 13 { (27, 28) }
    else if k == 14 { (29, 30) }
    else { (31, 32) }
}

/// A mirrored frame of at least 66 values (33 joints × XY) exchanges the two values of
/// the joints of every left/right pair — pair `k` for `0 <= k < 16`, coordinate `c` — keeps
/// the nose (joint 0) in place, keeps the values past the 66th, and has the frame's length.
pub proof fn mirroring_exchanges_each_pair<T>(frame: Seq<T>, k: int, c: int)
    requires
        frame.len() >= MIN_MIRROR_DIMS,
        0 <= k < 16,
        0 <= c < 2,
    ensures
        ({
            let (left, right) = mediapipe_mirror_pair(k);
            let m = mirrored(frame);
            &&& m.len() == frame.len()
            &&& m[left * 2 + c] == frame[right * 2 + c]
            &&& m[right * 2 + c] == frame[left * 2 + c]
            &&& m[c] == frame[c]
            &&& forall|i: int| MIN_MIRROR_DIMS <= i < frame.len() ==> #[trigger] m[i] == frame[i]
        }),
{
    let (left, right) = mediapipe_mirror_pair(k);
    assert((left * 2 + c) / 2 == left && (left * 2 + c) % 2 == c);
    assert((right * 2 + c) / 2 == right && (right * 2 + c) % 2 == c);
    assert(c / 2 == 0 && c % 2 == c);
}

/// Frames of fewer than 66 values are not poses of 33 joints, and mirroring leaves them
/// as they are.
pub proof fn short_frames_are_not_mirrored<T>(frame: Seq<T>)
    requires
        frame.len() < MIN_MIRROR_DIMS,
    ensures
        mirrored(frame) == frame,
{
}

fn mirror_partner(joint: usize) -> (r: usize)
    requires
        joint < 33,
    ensures
        r == mirror_joint(joint as int),
{
    if 1 <= joint && joint <= 3 {
        joint + 3
    } else if 4 <= joint && joint <= 6 {
        joint - 3
    } else if 7 <= joint {
        if joint % 2 == 1 {
            joint + 1
        } else {
            joint - 1
        }
    } else {
        joint
    }
}

/// Exchange the left and right MediaPipe joint pairs of a frame; frames with
/// fewer than 66 values are left untouched. (Negating X, the other half of a
/// mirror, is arithmetic on the coordinates and is up to the caller.)
pub fn swap_mirror_joints<T: Copy>(frame: &mut Vec<T>)
    ensures
        final(frame)@ == mirrored(old(frame)@),
{
    if frame.len() < MIN_MIRROR_DIMS {
        return;
    }
    let n = frame.len();
    let mut out: Vec<T> = Vec::with_capacity(n);
    let mut i: usize = 0;
    while i < n
        invariant
            n == frame@.len(),
            n >= MIN_MIRROR_DIMS,
            i <= n,
            out@.len() == i,
            forall|k: int| 0 <= k < i ==> #[trigger] out@[k] == frame@[mirror_index(k)],
        decreases n - i,
    {
        let src = if i < MIN_MIRROR_DIMS {
            proof {
                lemma_mirror_index(i as int);
            }
            mirror_partner(i / COORDS_PER_JOINT) * COORDS_PER_JOINT + i % COORDS_PER_JOINT
        } else {
            i
        };
        let v: T = frame[src];
        out.push(v);
        i = i + 1;
    }
    proof {
        assert(out@ =~= mirrored(frame@));
    }
    *frame = out;
}

} // verus!
