//! What the user interface is shown and the decisions its commands take.
//!
//! The transfer objects here carry no serialisation of their own; the
//! application mirrors them with serde derives. The builders fix their
//! contents from the library's state, and the small decision functions hold
//! the rules the commands follow (mode switches, frame admission, selection).

use vstd::prelude::*;

use crate::engine::augmentation::AugmentationConfig;
use crate::engine::recognizer::{HitLog, HitLogEntry};
use crate::engine::training::{SessionState, TrainingConfig};
use crate::model::vocabulary::{decimal, gesture_address};
use crate::osc::receiver::{ConnectionStatus, OscReceiverState};
use crate::osc::sender::{OscSenderState, SenderStatus};

verus! {

/// The two modes of the application
#[derive(Debug, Clone, Copy, PartialEq, Eq, Structural)]
pub enum AppMode {
    Training,
    Performance,
}

/// Augmentation settings as shown.
#[derive(Debug, Clone, Copy, PartialEq, Eq, Structural)]
pub struct AugmentationConfigDto {
    pub enabled: bool,
    pub multiplier: u32,
}

impl AugmentationConfigDto {
    /// The shown part of an augmentation configuration.
    pub fn from_config(config: &AugmentationConfig) -> (r: Self)
        ensures
            r.enabled == config.enabled,
            r.multiplier == config.multiplier,
    {
        AugmentationConfigDto { enabled: config.enabled, multiplier: config.multiplier }
    }
}

/// An example as shown: its length.
#[derive(Debug, Clone, Copy, PartialEq, Eq, Structural)]
pub struct ExampleDto {
    pub frame_count: usize,
}

/// The state of both ends of the OSC link as shown.
#[derive(Debug)]
pub struct OscStatusDto {
    pub input_status: String,
    pub ms_since_last_frame: u64,
    pub input_error: Option<String>,
    pub frame_count: u64,
    pub output_status: String,
    pub ms_since_last_send: u64,
    pub output_error: Option<String>,
    pub send_count: u64,
    pub dimension_mismatch_expected: Option<usize>,
    pub dimension_mismatch_actual: Option<usize>,
}

/// The hit log as shown: its size and its most recent entries.
#[derive(Debug)]
pub struct HitLogDto {
    pub total: usize,
    pub entries: Vec<HitEntryDto>,
}

/// One hit as shown: which gesture, how long ago, and whether that is recent.
#[derive(Debug)]
pub struct HitEntryDto {
    pub name: String,
    pub ms_ago: u64,
    pub recent: bool,
}

/// Label of a receiver status.
pub open spec fn input_label(status: ConnectionStatus) -> Seq<char> {
    match status {
        ConnectionStatus::Stopped => "Stopped"@,
        ConnectionStatus::Listening => "Listening"@,
        ConnectionStatus::Receiving => "Receiving"@,
        ConnectionStatus::Error => "Error"@,
    }
}

/// Label of a sender status.
pub open spec fn output_label(status: SenderStatus) -> Seq<char> {
    match status {
        SenderStatus::Ready => "Ready"@,
        SenderStatus::Sent => "Sent"@,
        SenderStatus::Error => "Error"@,
    }
}

/// Label of a training session state.
pub open spec fn training_label(state: SessionState) -> Seq<char> {
    match state {
        SessionState::Idle => "idle"@,
        SessionState::Countdown => "countdown"@,
        SessionState::Capturing => "capturing"@,
        SessionState::Resting => "resting"@,
        SessionState::Complete => "complete"@,
    }
}

/// The label shown for a receiver status.
pub fn input_status_label(status: ConnectionStatus) -> (r: String)
    ensures
        r@ == input_label(status),
{
    match status {
        ConnectionStatus::Stopped => "Stopped".to_owned(),
        ConnectionStatus::Listening => "Listening".to_owned(),
        ConnectionStatus::Receiving => "Receiving".to_owned(),
        ConnectionStatus::Error => "Error".to_owned(),
    }
}

/// The label shown for a sender status.
pub fn output_status_label(status: SenderStatus) -> (r: String)
    ensures
        r@ == output_label(status),
{
    match status {
        SenderStatus::Ready => "Ready".to_owned(),
        SenderStatus::Sent => "Sent".to_owned(),
        SenderStatus::Error => "Error".to_owned(),
    }
}

/// The label shown for a training session state.
pub fn training_state_label(state: SessionState) -> (r: &'static str)
    ensures
        r@ == training_label(state),
{
    match state {
        SessionState::Idle => "idle",
        SessionState::Countdown => "countdown",
        SessionState::Capturing => "capturing",
        SessionState::Resting => "resting",
        SessionState::Complete => "complete",
    }
}

/// The counts of a training session as shown (built by
/// `TrainingCountsDto::from_session`, next to the session's fields).
#[derive(Debug)]
pub struct TrainingCountsDto {
    pub state: String,
    /// The gesture being trained, while a session runs
    pub gesture_id: Option<u32>,
    pub countdown: u32,
    /// The repetition under way (1-based)
    pub current_rep: u32,
    pub total_reps: u32,
    pub completed_reps: u32,
    /// Frames captured in the current repetition
    pub frame_count: usize,
}

/// Where a hit of gesture `id` is sent: the address the recognizer holds for it, or
/// `/gesture/<id>` when the recognizer does not know the gesture.
pub fn hit_address(known: Option<String>, id: u32) -> (r: String)
    ensures
        known matches Some(a) ==> r == a,
        known is None ==> r@ == "/gesture/"@ + decimal(id as nat),
{
    match known {
        Some(a) => a,
        None => gesture_address(id),
    }
}

fn copy_text(t: &Option<String>) -> (r: Option<String>)
    ensures
        r == *t,
{
    match t {
        Some(s) => Some(s.clone()),
        None => None,
    }
}

/// Milliseconds from `then` to `now`, zero if `now` is earlier.
pub open spec fn ms_between(then: u64, now: u64) -> u64 {
    if now >= then {
        (now - then) as u64
    } else {
        0
    }
}

impl OscStatusDto {
    /// The link's state as of `now`: labels for both statuses, times since
    /// the last frame and the last send (zero before the first), the errors
    /// and counters, and the dimension mismatch if one is being reported.
    pub fn from_state(
        receiver: &OscReceiverState,
        sender: &OscSenderState,
        dimension_mismatch: Option<(usize, usize)>,
        now: u64,
    ) -> (r: Self)
        ensures
            r.input_status@ == input_label(receiver.status),
            r.ms_since_last_frame == (match receiver.last_frame_time {
                Some(t) => ms_between(t, now),
                None => 0,
            }),
            r.input_error == receiver.error_message,
            r.frame_count == receiver.frame_count,
            r.output_status@ == output_label(sender.status),
            r.ms_since_last_send == (match sender.last_send_time {
                Some(t) => ms_between(t, now),
                None => 0,
            }),
            r.output_error == sender.error_message,
            r.send_count == sender.send_count,
            r.dimension_mismatch_expected == (match dimension_mismatch {
                Some(m) => Some(m.0),
                None => None::<usize>,
            }),
            r.dimension_mismatch_actual == (match dimension_mismatch {
                Some(m) => Some(m.1),
                None => None::<usize>,
            }),
    {
        let ms_frame = match receiver.ms_since_last_frame(now) {
            Some(ms) => ms,
            None => 0,
        };
        let ms_send = match sender.ms_since_last_send(now) {
            Some(ms) => ms,
            None => 0,
        };
        let (expected, actual) = match dimension_mismatch {
            Some((e, a)) => (Some(e), Some(a)),
            None => (None, None),
        };
        OscStatusDto {
            input_status: input_status_label(receiver.status),
            ms_since_last_frame: ms_frame,
            input_error: copy_text(&receiver.error_message),
            frame_count: receiver.frame_count,
            output_status: output_status_label(sender.status),
            ms_since_last_send: ms_send,
            output_error: copy_text(&sender.error_message),
            send_count: sender.send_count,
            dimension_mismatch_expected: expected,
            dimension_mismatch_actual: actual,
        }
    }
}

/// Entries of the hit log shown at most.
pub const HIT_LOG_SHOWN: usize = 10;

/// A hit counts as recent for this many milliseconds.
pub const RECENT_HIT_MS: u64 = 2000;

/// A hit is flashed in the monitor for this many milliseconds.
pub const FLASH_HIT_MS: u64 = 300;

/// How an entry of the hit log is shown at `now`.
pub open spec fn shown_entry<D>(e: HitLogEntry<D>, now: u64, r: HitEntryDto) -> bool {
    &&& r.name@ == e.gesture_name@
    &&& r.ms_ago == ms_between(e.timestamp, now)
    &&& r.recent == (ms_between(e.timestamp, now) < RECENT_HIT_MS)
}

impl HitLogDto {
    /// The log as of `now`: its size, and its ten most recent hits, newest first.
    pub fn from_log<D>(log: &HitLog<D>, now: u64) -> (r: Self)
        ensures
            r.total == log@.len(),
            r.entries@.len() == (if log@.len() >= HIT_LOG_SHOWN {
                HIT_LOG_SHOWN as nat
            } else {
                log@.len()
            }),
            forall|k: int|
                0 <= k < r.entries@.len() ==> shown_entry(
                    log@[log@.len() - 1 - k],
                    now,
                    #[trigger] r.entries@[k],
                ),
    {
        let recent = log.recent(HIT_LOG_SHOWN);
        let mut entries: Vec<HitEntryDto> = Vec::new();
        let mut k: usize = 0;
        while k < recent.len()
            invariant
                k <= recent@.len(),
                recent@.len() == (if HIT_LOG_SHOWN <= log@.len() {
                    HIT_LOG_SHOWN as nat
                } else {
                    log@.len()
                }),
                forall|j: int|
                    0 <= j < recent@.len() ==> *(#[trigger] recent@[j]) == log@[log@.len() - 1 - j],
                entries@.len() == k,
                forall|j: int|
                    0 <= j < k ==> shown_entry(
                        log@[log@.len() - 1 - j],
                        now,
                        #[trigger] entries@[j],
                    ),
            decreases recent@.len() - k,
        {
            let e = recent[k];
            let ms_ago = now.saturating_sub(e.timestamp);
            entries.push(
                HitEntryDto { name: e.gesture_name.clone(), ms_ago, recent: ms_ago < RECENT_HIT_MS },
            );
            k = k + 1;
        }
        HitLogDto { total: log.len(), entries }
    }
}

/// The name of the gesture to flash in the monitor: the latest hit's, if it
/// fired less than 300 ms before `now`.
pub fn flashing_hit_name<D>(log: &HitLog<D>, now: u64) -> (r: Option<String>)
    ensures
        (log@.len() > 0 && ms_between(log@.last().timestamp, now) < FLASH_HIT_MS) ==> (r matches Some(
            name,
        ) && name@ == log@.last().gesture_name@),
        !(log@.len() > 0 && ms_between(log@.last().timestamp, now) < FLASH_HIT_MS) ==> r is None,
{
    let last = log.recent(1);
    if last.len() == 0 {
        return None;
    }
    let e = last[0];
    if now.saturating_sub(e.timestamp) < FLASH_HIT_MS {
        Some(e.gesture_name.clone())
    } else {
        None
    }
}

/// What switching the application to a mode asks of the recognizer.
#[derive(Debug, Clone, Copy, PartialEq, Eq, Structural)]
pub enum ModeSwitch {
    /// Already in that mode: nothing changes
    Unchanged,
    /// Entering performance: recognition starts
    StartRecognition,
    /// Entering training: recognition stops
    StopRecognition,
}

/// The switch from mode `current` to mode `requested`.
pub fn mode_switch(current: AppMode, requested: AppMode) -> (r: ModeSwitch)
    ensures
        current == requested ==> r == ModeSwitch::Unchanged,
        current != requested && requested == AppMode::Performance ==> r
            == ModeSwitch::StartRecognition,
        current != requested && requested == AppMode::Training ==> r == ModeSwitch::StopRecognition,
{
    if current == requested {
        ModeSwitch::Unchanged
    } else if requested == AppMode::Performance {
        ModeSwitch::StartRecognition
    } else {
        ModeSwitch::StopRecognition
    }
}

/// The frames of one poll that are worked on: in performance mode only the
/// most recent one (latency matters more than completeness), else all of them.
pub fn frames_to_process<T>(mode: AppMode, frames: Vec<T>) -> (r: Vec<T>)
    ensures
        mode == AppMode::Performance && frames@.len() > 1 ==> r@ == seq![frames@.last()],
        !(mode == AppMode::Performance && frames@.len() > 1) ==> r@ == frames@,
{
    let mut frames = frames;
    if mode == AppMode::Performance && frames.len() > 1 {
        let last = frames.pop().unwrap();
        let mut only: Vec<T> = Vec::new();
        only.push(last);
        proof {
            assert(only@ =~= seq![last]);
        }
        only
    } else {
        frames
    }
}

/// What becomes of one incoming frame, checked against the vocabulary's dimensions.
#[derive(Debug, Clone, Copy, PartialEq, Eq, Structural)]
pub enum DimensionVerdict {
    /// Dimensions match; `resumed` when this ends a reported mismatch
    Accept { resumed: bool },
    /// Dimensions differ, the frame is dropped; `newly_seen` when this actual
    /// count was not the one last reported
    Reject { newly_seen: bool },
}

/// Check a frame of `actual` values against the `expected` count and update
/// the mismatch being reported (expected, actual).
pub fn check_dimensions(
    expected: usize,
    actual: usize,
    mismatch: &mut Option<(usize, usize)>,
) -> (r: DimensionVerdict)
    ensures
        actual == expected ==> r == (DimensionVerdict::Accept { resumed: old(mismatch).is_some() })
            && *final(mismatch) == None::<(usize, usize)>,
        actual != expected ==> r == (DimensionVerdict::Reject {
            newly_seen: !(*old(mismatch) matches Some(m) && m.1 == actual),
        }) && *final(mismatch) == Some((expected, actual)),
{
    if actual != expected {
        let newly_seen = match *mismatch {
            Some((_, a)) => a != actual,
            None => true,
        };
        *mismatch = Some((expected, actual));
        DimensionVerdict::Reject { newly_seen }
    } else {
        let resumed = mismatch.is_some();
        *mismatch = None;
        DimensionVerdict::Accept { resumed }
    }
}

/// The selected gesture after gesture `deleted` is removed: the first remaining
/// one if the deleted one was selected, else the selection stays.
pub fn selection_after_delete(selected: Option<u32>, deleted: u32, first_remaining: Option<u32>) -> (r:
    Option<u32>)
    ensures
        selected == Some(deleted) ==> r == first_remaining,
        selected != Some(deleted) ==> r == selected,
{
    if selected == Some(deleted) {
        first_remaining
    } else {
        selected
    }
}

/// Whether a gesture's threshold is set by hand after its mode is toggled:
/// manual becomes automatic only when statistics are known to compute it from;
/// automatic always becomes manual.
pub fn manual_after_toggle(manual: bool, has_statistics: bool) -> (r: bool)
    ensures
        r == (!manual || !has_statistics),
{
    if manual {
        !has_statistics
    } else {
        true
    }
}

/// The training configuration for timings given in whole seconds.
pub fn training_config_from_secs(reps: u32, countdown_secs: u32, duration_secs: u32, rest_secs: u32) -> (r:
    TrainingConfig)
    ensures
        r.reps == reps,
        r.countdown_ms == countdown_secs * 1000,
        r.duration_ms == duration_secs * 1000,
        r.rest_ms == rest_secs * 1000,
{
    TrainingConfig {
        reps,
        countdown_ms: countdown_secs as u64 * 1000,
        duration_ms: duration_secs as u64 * 1000,
        rest_ms: rest_secs as u64 * 1000,
    }
}

/// The 1-based position shown for new example `new_index` of a training run,
/// after `existing` examples the gesture already had.
pub fn shown_example_position(existing: usize, new_index: usize) -> (r: usize)
    requires
        existing + new_index + 1 <= usize::MAX,
    ensures
        r == existing + new_index + 1,
{
    existing + new_index + 1
}

} // verus!
