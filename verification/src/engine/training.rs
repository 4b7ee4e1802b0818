//! Training session state machine.
//!
//! IDLE → COUNTDOWN → CAPTURING → RESTING → (repeat) → COMPLETE
//!
//! Time enters as a monotonic millisecond reading supplied by the caller, and
//! the audio cues the session asks for are queued for the caller to play.

use vstd::prelude::*;

use crate::gui::{training_label, training_state_label, TrainingCountsDto};

verus! {

/// Training session states
#[derive(Debug, Clone, Copy, PartialEq, Eq, Structural)]
pub enum SessionState {
    /// Waiting to start
    Idle,
    /// Counting down before capture (3, 2, 1...)
    Countdown,
    /// Actively recording gesture
    Capturing,
    /// Resting between repetitions
    Resting,
    /// All repetitions complete
    Complete,
}

/// Configuration for a gesture training session (times in milliseconds).
#[derive(Debug, Clone, Copy, PartialEq, Eq, Structural)]
pub struct TrainingConfig {
    /// Number of repetitions to record
    pub reps: u32,
    /// Duration of each capture
    pub duration_ms: u64,
    /// Rest time between captures
    pub rest_ms: u64,
    /// Countdown time before each capture
    pub countdown_ms: u64,
}

impl Default for TrainingConfig {
    /// Five repetitions of two-second captures, two-second rests and count-ins.
    fn default() -> (r: Self)
        ensures
            r == (TrainingConfig { reps: 5, duration_ms: 2000, rest_ms: 2000, countdown_ms: 2000 }),
    {
        TrainingConfig { reps: 5, duration_ms: 2000, rest_ms: 2000, countdown_ms: 2000 }
    }
}

/// A sine tone: frequency in hertz and length in milliseconds.
#[derive(Debug, Clone, Copy, PartialEq, Eq, Structural)]
pub struct Tone {
    pub freq_hz: u32,
    pub duration_ms: u32,
}

/// The sounds a training session asks for.
#[derive(Debug, Clone, Copy, PartialEq, Eq, Structural)]
pub enum AudioCue {
    /// Countdown tick
    Tick,
    /// Capture begins
    CaptureStart,
    /// Capture ends
    CaptureEnd,
    /// Session complete
    Complete,
}

/// Countdown tick (short, low pitch).
pub fn play_tick() -> (t: Tone)
    ensures
        t == (Tone { freq_hz: 300, duration_ms: 80 }),
{
    Tone { freq_hz: 300, duration_ms: 80 }
}

/// Capture start beep (long, high pitch).
pub fn play_capture_start() -> (t: Tone)
    ensures
        t == (Tone { freq_hz: 800, duration_ms: 300 }),
{
    Tone { freq_hz: 800, duration_ms: 300 }
}

/// Capture end beep (long, medium pitch).
pub fn play_capture_end() -> (t: Tone)
    ensures
        t == (Tone { freq_hz: 600, duration_ms: 300 }),
{
    Tone { freq_hz: 600, duration_ms: 300 }
}

/// Session complete: a double ding, two tones with a pause (ms) between them.
pub fn play_complete() -> (r: (Tone, u64, Tone))
    ensures
        r == (Tone { freq_hz: 1000, duration_ms: 150 }, 200u64, Tone { freq_hz: 1000, duration_ms: 150 }),
{
    (Tone { freq_hz: 1000, duration_ms: 150 }, 200, Tone { freq_hz: 1000, duration_ms: 150 })
}

/// Ceiling of `a / b` for a positive `b`.
pub open spec fn ceil_div(a: nat, b: nat) -> nat
    recommends
        b > 0,
{
    if a % b == 0 { a / b } else { a / b + 1 }
}

/// The abstract state of a training session: every field, with sequences in place of vectors.
pub struct SessionModel<F> {
    pub state: SessionState,
    pub config: TrainingConfig,
    pub gesture_id: u32,
    pub gesture_name: Seq<char>,
    pub completed_reps: u32,
    /// When the current state started (ms reading)
    pub state_start: Option<u64>,
    /// Frames of the repetition being captured
    pub current_frames: Seq<F>,
    /// Frames of each repetition captured so far
    pub completed_examples: Seq<Seq<F>>,
    /// Last countdown number announced
    pub last_tick: Option<u32>,
    /// Whether cues are queued
    pub audio_enabled: bool,
    /// Queued cues, oldest first
    pub pending_cues: Seq<AudioCue>,
}

impl<F> SessionModel<F> {
    /// Milliseconds spent in the current state at time `now`.
    pub open spec fn elapsed(self, now: u64) -> nat {
        match self.state_start {
            Some(t) => if now >= t { (now - t) as nat } else { 0 },
            None => 0,
        }
    }

    /// How long the current state lasts; zero for Idle and Complete.
    pub open spec fn target(self) -> nat {
        match self.state {
            SessionState::Countdown => self.config.countdown_ms as nat,
            SessionState::Capturing => self.config.duration_ms as nat,
            SessionState::Resting => self.config.rest_ms as nat,
            _ => 0,
        }
    }

    /// Milliseconds left in the current state at time `now`.
    pub open spec fn remaining(self, now: u64) -> nat {
        if self.elapsed(now) >= self.target() {
            0
        } else {
            (self.target() - self.elapsed(now)) as nat
        }
    }

    /// The countdown number shown: whole seconds left, rounded up; zero outside Countdown.
    pub open spec fn countdown_value(self, now: u64) -> nat {
        if self.state != SessionState::Countdown {
            0
        } else if ceil_div(self.remaining(now), 1000) > u32::MAX {
            u32::MAX as nat
        } else {
            ceil_div(self.remaining(now), 1000)
        }
    }

    /// Countdown, Capturing and Resting are the active states.
    pub open spec fn is_active(self) -> bool {
        self.state == SessionState::Countdown || self.state == SessionState::Capturing
            || self.state == SessionState::Resting
    }

    /// The same session, with `c` queued when audio is enabled.
    pub open spec fn with_cue(self, c: AudioCue) -> Self {
        SessionModel {
            pending_cues: if self.audio_enabled { self.pending_cues.push(c) } else { self.pending_cues },
            ..self
        }
    }

    /// The same session entering `s` at time `now`.
    pub open spec fn entering(self, s: SessionState, now: u64) -> Self {
        SessionModel { state: s, state_start: Some(now), last_tick: None, ..self }
    }

    /// What the end of a capture does: the end cue, the frames kept as an example when
    /// there are any, one more repetition counted, then Complete (with the completion cue)
    /// once the configured repetitions are reached, Resting otherwise.
    pub open spec fn after_capture(self, now: u64) -> Self {
        let ended = self.with_cue(AudioCue::CaptureEnd);
        let kept = SessionModel {
            current_frames: if self.current_frames.len() == 0 { self.current_frames } else { Seq::empty() },
            completed_examples: if self.current_frames.len() == 0 {
                self.completed_examples
            } else {
                self.completed_examples.push(self.current_frames)
            },
            completed_reps: (self.completed_reps + 1) as u32,
            ..ended
        };
        if kept.completed_reps >= self.config.reps {
            kept.entering(SessionState::Complete, now).with_cue(AudioCue::Complete)
        } else {
            kept.entering(SessionState::Resting, now)
        }
    }
    /// What advancing the session to time `now` does: whether the state changes, and the
    /// session afterwards.
    pub open spec fn updated(self, now: u64) -> (bool, Self) {
        let tick = self.countdown_value(now);
        let ticked = if self.last_tick != Some(tick as u32) && tick > 0 {
            SessionModel { last_tick: Some(tick as u32), ..self.with_cue(AudioCue::Tick) }
        } else {
            self
        };
        match self.state {
            SessionState::Countdown => if self.elapsed(now) >= self.config.countdown_ms {
                (true, ticked.entering(SessionState::Capturing, now).with_cue(AudioCue::CaptureStart))
            } else {
                (false, ticked)
            },
            SessionState::Capturing => if self.elapsed(now) >= self.config.duration_ms {
                (true, self.after_capture(now))
            } else {
                (false, self)
            },
            SessionState::Resting => if self.elapsed(now) >= self.config.rest_ms {
                (true, self.entering(SessionState::Countdown, now))
            } else {
                (false, self)
            },
            _ => (false, self),
        }
    }

    /// The edges of the session cycle: Countdown → Capturing → Resting or Complete,
    /// Resting → Countdown, and staying put.
    pub open spec fn is_cycle_step(from: SessionState, to: SessionState) -> bool {
        ||| from == to
        ||| from == SessionState::Countdown && to == SessionState::Capturing
        ||| from == SessionState::Capturing && to == SessionState::Resting
        ||| from == SessionState::Capturing && to == SessionState::Complete
        ||| from == SessionState::Resting && to == SessionState::Countdown
    }
}

/// Advancing a session only ever moves it one step along
/// Countdown → Capturing → Resting → Countdown … → Complete, or leaves its state as it was;
/// Idle and Complete never change by themselves.
pub proof fn update_follows_the_cycle<F>(s: SessionModel<F>, now: u64)
    ensures
        SessionModel::<F>::is_cycle_step(s.state, s.updated(now).1.state),
        s.state == SessionState::Idle ==> s.updated(now).1 == s,
        s.state == SessionState::Complete ==> s.updated(now).1 == s,
        s.updated(now).0 <==> s.updated(now).1.state != s.state,
{
}

/// Repetitions are counted once per finished capture: an update adds at most one, and adds
/// one exactly when a capture ends. The session reaches Complete exactly when that capture
/// brings the count to the configured number of repetitions.
pub proof fn repetitions_count_finished_captures<F>(s: SessionModel<F>, now: u64)
    requires
        s.state == SessionState::Capturing ==> s.completed_reps < u32::MAX,
    ensures
        ({
            let post = s.updated(now).1;
            let capture_ended = s.state == SessionState::Capturing && s.elapsed(now)
                >= s.config.duration_ms;
            &&& capture_ended ==> post.completed_reps == s.completed_reps + 1
            &&& !capture_ended ==> post.completed_reps == s.completed_reps
            &&& (post.state == SessionState::Complete && s.state != SessionState::Complete) <==> (
            capture_ended && s.completed_reps + 1 >= s.config.reps)
        }),
{
}

/// A session never holds more captured examples than finished repetitions: advancing and
/// adding frames keep this so (start, cancel and taking the examples leave no example).
pub proof fn examples_never_outnumber_repetitions<F>(s: SessionModel<F>, now: u64, frame: F)
    requires
        s.completed_examples.len() <= s.completed_reps,
        s.state == SessionState::Capturing ==> s.completed_reps < u32::MAX,
    ensures
        s.updated(now).1.completed_examples.len() <= s.updated(now).1.completed_reps,
        s.state == SessionState::Capturing ==> (SessionModel {
            current_frames: s.current_frames.push(frame),
            ..s
        }).completed_examples.len() <= s.completed_reps,
{
}

/// Each phase lasts its own configured time, measured from when the phase began: a
/// countdown ends after `countdown_ms`, a capture after `duration_ms` and a rest after
/// `rest_ms`, each at the first update at or after that moment and never before, whatever
/// the other two durations are. The phase that follows starts at the time of that update.
pub proof fn each_phase_lasts_its_configured_time<F>(s: SessionModel<F>, start: u64, now: u64)
    requires
        s.state_start == Some(start),
        start <= now,
        s.state == SessionState::Capturing ==> s.completed_reps < u32::MAX,
    ensures
        ({
            let (changed, post) = s.updated(now);
            let spent = now - start;
            &&& s.state == SessionState::Countdown ==> (changed <==> spent >= s.config.countdown_ms)
                && (changed ==> post.state == SessionState::Capturing && post.state_start == Some(now))
                && (!changed ==> post.state == SessionState::Countdown && post.state_start == Some(start))
            &&& s.state == SessionState::Capturing ==> (changed <==> spent >= s.config.duration_ms)
                && (changed ==> (post.state == SessionState::Resting || post.state == SessionState::Complete)
                    && post.state_start == Some(now))
                && (!changed ==> post == s)
            &&& s.state == SessionState::Resting ==> (changed <==> spent >= s.config.rest_ms)
                && (changed ==> post.state == SessionState::Countdown && post.state_start == Some(now))
                && (!changed ==> post == s)
        }),
{
}

/// A countdown announces each number it shows once: an update during the countdown queues
/// a tick (when audio is on) only when the number shown differs from the one last
/// announced, and records the number it announced. So a second update that shows the same
/// number as the first queues nothing, however many updates there are.
pub proof fn one_tick_per_countdown_number<F>(s: SessionModel<F>, start: u64, t1: u64, t2: u64)
    requires
        s.state == SessionState::Countdown,
        s.state_start == Some(start),
        start <= t1 <= t2,
        t2 - start < s.config.countdown_ms,
    ensures
        ({
            let first = s.updated(t1).1;
            let second = first.updated(t2).1;
            let shown1 = s.countdown_value(t1);
            let shown2 = s.countdown_value(t2);
            &&& first.state == SessionState::Countdown && second.state == SessionState::Countdown
            &&& first.pending_cues.len() <= s.pending_cues.len() + 1
            &&& first.pending_cues.len() == s.pending_cues.len() + 1 ==> first.pending_cues.last()
                == AudioCue::Tick && s.last_tick != Some(shown1 as u32)
            &&& s.last_tick == Some(shown1 as u32) ==> first.pending_cues == s.pending_cues
            &&& shown1 > 0 ==> first.last_tick == Some(shown1 as u32)
            &&& shown1 == shown2 ==> second.pending_cues == first.pending_cues
            &&& (s.audio_enabled && shown1 > 0 && s.last_tick != Some(shown1 as u32))
                ==> first.pending_cues == s.pending_cues.push(AudioCue::Tick)
        }),
{
}

/// The countdown shows the whole seconds left, rounded up: with `r` milliseconds of the
/// countdown left, the number `v` shown has `(v - 1) * 1000 < r <= v * 1000`, and it
/// shows zero once the countdown time has passed.
pub proof fn countdown_shows_seconds_left_rounded_up<F>(s: SessionModel<F>, start: u64, now: u64)
    requires
        s.state == SessionState::Countdown,
        s.state_start == Some(start),
        start <= now,
        s.config.countdown_ms <= 1000 * (u32::MAX as nat),
    ensures
        ({
            let v = s.countdown_value(now);
            let spent = now - start;
            &&& spent >= s.config.countdown_ms ==> v == 0
            &&& spent < s.config.countdown_ms ==> {
                let r = s.config.countdown_ms - spent;
                &&& (v - 1) * 1000 < r
                &&& r <= v * 1000
            }
        }),
{
    let spent = now - start;
    if spent < s.config.countdown_ms {
        let r: nat = (s.config.countdown_ms - spent) as nat;
        assert(s.remaining(now) == r);
        let q = r / 1000;
        let m = r % 1000;
        assert(r == q * 1000 + m && 0 <= m < 1000);
        assert(ceil_div(r, 1000) <= u32::MAX);
    }
}

/// The ends of the phases, with audio on: a countdown that ends queues the capture-start
/// cue (and no tick, as it shows zero); a capture that ends queues the capture-end cue,
/// then the completion cue when it was the last repetition, and keeps its frames, when it
/// has any, as one more example; a rest that ends queues nothing.
pub proof fn phase_ends_queue_cues_and_keep_examples<F>(s: SessionModel<F>, start: u64, now: u64)
    requires
        s.audio_enabled,
        s.state_start == Some(start),
        start <= now,
        s.state == SessionState::Capturing ==> s.completed_reps < u32::MAX,
    ensures
        ({
            let (changed, post) = s.updated(now);
            &&& (s.state == SessionState::Countdown && changed) ==> post.pending_cues
                == s.pending_cues.push(AudioCue::CaptureStart)
            &&& (s.state == SessionState::Capturing && changed) ==> {
                &&& s.completed_reps + 1 >= s.config.reps ==> post.pending_cues
                    == s.pending_cues.push(AudioCue::CaptureEnd).push(AudioCue::Complete)
                &&& s.completed_reps + 1 < s.config.reps ==> post.pending_cues
                    == s.pending_cues.push(AudioCue::CaptureEnd)
                &&& s.current_frames.len() > 0 ==> post.completed_examples
                    == s.completed_examples.push(s.current_frames)
                &&& s.current_frames.len() == 0 ==> post.completed_examples == s.completed_examples
                &&& post.current_frames.len() == 0
            }
            &&& (s.state == SessionState::Resting && changed) ==> post.pending_cues == s.pending_cues
        }),
{
}

/// Training session state machine over frames of type `F`.
pub struct TrainingSession<F> {
    /// Current state
    pub state: SessionState,
    /// Configuration
    pub config: TrainingConfig,
    /// Gesture ID being trained
    pub gesture_id: u32,
    /// Gesture name (for display)
    pub gesture_name: String,
    /// Number of completed repetitions
    pub completed_reps: u32,
    /// When the current state started (ms reading)
    state_start: Option<u64>,
    /// Frames captured in current rep
    current_frames: Vec<F>,
    /// All completed examples (frames for each rep)
    pub completed_examples: Vec<Vec<F>>,
    /// Last countdown tick announced
    last_tick: Option<u32>,
    /// Whether to queue audio cues
    audio_enabled: bool,
    /// Audio cues waiting to be played, oldest first
    pending_cues: Vec<AudioCue>,
}

impl<F> View for TrainingSession<F> {
    type V = SessionModel<F>;

    closed spec fn view(&self) -> SessionModel<F> {
        SessionModel {
            state: self.state,
            config: self.config,
            gesture_id: self.gesture_id,
            gesture_name: self.gesture_name@,
            completed_reps: self.completed_reps,
            state_start: self.state_start,
            current_frames: self.current_frames@,
            completed_examples: self.completed_examples@.map_values(|v: Vec<F>| v@),
            last_tick: self.last_tick,
            audio_enabled: self.audio_enabled,
            pending_cues: self.pending_cues@,
        }
    }
}

impl<F> TrainingSession<F> {
    /// A fresh session in Idle, queuing audio cues only when `enable_audio` holds.
    pub fn with_audio(enable_audio: bool) -> (s: Self)
        ensures
            s@ == (SessionModel::<F> {
                state: SessionState::Idle,
                config: TrainingConfig { reps: 5, duration_ms: 2000, rest_ms: 2000, countdown_ms: 2000 },
                gesture_id: 0,
                gesture_name: Seq::empty(),
                completed_reps: 0,
                state_start: None,
                current_frames: Seq::empty(),
                completed_examples: Seq::empty(),
                last_tick: None,
                audio_enabled: enable_audio,
                pending_cues: Seq::empty(),
            }),
    {
        let s = TrainingSession {
            state: SessionState::Idle,
            config: TrainingConfig::default(),
            gesture_id: 0,
            gesture_name: String::new(),
            completed_reps: 0,
            state_start: None,
            current_frames: Vec::new(),
            completed_examples: Vec::new(),
            last_tick: None,
            audio_enabled: enable_audio,
            pending_cues: Vec::new(),
        };
        assert(s.completed_examples@.map_values(|v: Vec<F>| v@) =~= Seq::<Seq<F>>::empty());
        s
    }

    /// A fresh session with audio cues enabled.
    pub fn new() -> (s: Self)
        ensures
            s@ == (SessionModel::<F> {
                state: SessionState::Idle,
                config: TrainingConfig { reps: 5, duration_ms: 2000, rest_ms: 2000, countdown_ms: 2000 },
                gesture_id: 0,
                gesture_name: Seq::empty(),
                completed_reps: 0,
                state_start: None,
                current_frames: Seq::empty(),
                completed_examples: Seq::empty(),
                last_tick: None,
                audio_enabled: true,
                pending_cues: Seq::empty(),
            }),
    {
        Self::with_audio(true)
    }

    /// Enter `new_state` at time `now`, forgetting the last countdown tick.
    fn transition_to(&mut self, new_state: SessionState, now: u64)
        ensures
            final(self)@ == old(self)@.entering(new_state, now),
    {
        self.state = new_state;
        self.state_start = Some(now);
        self.last_tick = None;
    }

    /// Queue a cue if audio is enabled.
    fn cue(&mut self, c: AudioCue)
        ensures
            final(self)@ == old(self)@.with_cue(c),
    {
        if self.audio_enabled {
            self.pending_cues.push(c);
        }
    }

    /// Start a training session for a gesture at time `now`: Countdown begins, with no
    /// repetitions, frames or examples yet.
    pub fn start(&mut self, gesture_id: u32, gesture_name: &str, config: TrainingConfig, now: u64)
        ensures
            final(self)@ == (SessionModel {
                state: SessionState::Countdown,
                config: config,
                gesture_id: gesture_id,
                gesture_name: gesture_name@,
                completed_reps: 0,
                state_start: Some(now),
                current_frames: Seq::empty(),
                completed_examples: Seq::empty(),
                last_tick: None,
                ..old(self)@
            }),
    {
        self.gesture_id = gesture_id;
        self.gesture_name = gesture_name.to_owned();
        self.config = config;
        self.completed_reps = 0;
        self.current_frames.clear();
        self.completed_examples.clear();
        self.last_tick = None;
        self.transition_to(SessionState::Countdown, now);
        assert(self.completed_examples@.map_values(|v: Vec<F>| v@) =~= Seq::<Seq<F>>::empty());
    }

    /// Cancel the current session at time `now`, discarding all captured data.
    pub fn cancel(&mut self, now: u64)
        ensures
            final(self)@ == (SessionModel {
                current_frames: Seq::empty(),
                completed_examples: Seq::empty(),
                ..old(self)@.entering(SessionState::Idle, now)
            }),
    {
        self.transition_to(SessionState::Idle, now);
        self.current_frames.clear();
        self.completed_examples.clear();
        assert(self.completed_examples@.map_values(|v: Vec<F>| v@) =~= Seq::<Seq<F>>::empty());
    }

    /// Milliseconds spent in the current state at time `now` (zero before any state began).
    pub fn elapsed_ms(&self, now: u64) -> (r: u64)
        ensures
            r == self@.elapsed(now),
    {
        match self.state_start {
            Some(t) => if now >= t { now - t } else { 0 },
            None => 0,
        }
    }

    /// How long the current state lasts in milliseconds (zero for Idle and Complete).
    pub fn state_target_ms(&self) -> (r: u64)
        ensures
            r == self@.target(),
    {
        match self.state {
            SessionState::Countdown => self.config.countdown_ms,
            SessionState::Capturing => self.config.duration_ms,
            SessionState::Resting => self.config.rest_ms,
            _ => 0,
        }
    }

    /// Milliseconds left in the current state at time `now`.
    pub fn remaining_ms(&self, now: u64) -> (r: u64)
        ensures
            r == self@.remaining(now),
    {
        let target = self.state_target_ms();
        let elapsed = self.elapsed_ms(now);
        if elapsed >= target {
            0
        } else {
            target - elapsed
        }
    }

    /// Countdown value (3, 2, 1): whole seconds left, rounded up; zero outside Countdown.
    pub fn countdown_value(&self, now: u64) -> (r: u32)
        ensures
            r == self@.countdown_value(now),
    {
        if self.state != SessionState::Countdown {
            return 0;
        }
        let remaining = self.remaining_ms(now);
        let secs = if remaining % 1000 == 0 {
            remaining / 1000
        } else {
            remaining / 1000 + 1
        };
        if secs > u32::MAX as u64 {
            u32::MAX
        } else {
            secs as u32
        }
    }

    /// Add a frame; it is kept only while capturing.
    pub fn add_frame(&mut self, frame: F)
        ensures
            final(self)@ == (if old(self)@.state == SessionState::Capturing {
                SessionModel { current_frames: old(self)@.current_frames.push(frame), ..old(self)@ }
            } else {
                old(self)@
            }),
    {
        if self.state == SessionState::Capturing {
            self.current_frames.push(frame);
        }
    }

    /// Number of frames captured in the current rep.
    pub fn current_frame_count(&self) -> (r: usize)
        ensures
            r == self@.current_frames.len(),
    {
        self.current_frames.len()
    }

    /// True while counting down, capturing or resting.
    pub fn is_active(&self) -> (r: bool)
        ensures
            r == self@.is_active(),
    {
        match self.state {
            SessionState::Countdown | SessionState::Capturing | SessionState::Resting => true,
            _ => false,
        }
    }

    /// End of a capture at time `now`.
    fn on_capture_complete(&mut self, now: u64)
        requires
            old(self)@.completed_reps < u32::MAX,
        ensures
            final(self)@ == old(self)@.after_capture(now),
    {
        let ghost pre = self@;
        self.cue(AudioCue::CaptureEnd);
        if self.current_frames.len() != 0 {
            let mut frames: Vec<F> = Vec::new();
            std::mem::swap(&mut frames, &mut self.current_frames);
            let ghost before = self.completed_examples@;
            self.completed_examples.push(frames);
            assert(self.completed_examples@.map_values(|v: Vec<F>| v@) =~= before.map_values(
                |v: Vec<F>| v@,
            ).push(frames@));
        }
        self.completed_reps = self.completed_reps + 1;
        if self.completed_reps >= self.config.reps {
            self.transition_to(SessionState::Complete, now);
            self.cue(AudioCue::Complete);
        } else {
            self.transition_to(SessionState::Resting, now);
        }
        assert(self@ =~= pre.after_capture(now));
    }

    /// Advance the session to time `now`; returns true when the state changed.
    ///
    /// In Countdown a tick is queued each time the shown number changes, and Capturing
    /// begins (with its cue) once the countdown time has passed; Capturing ends after the
    /// capture time, and Resting leads back to Countdown after the rest time.
    pub fn update(&mut self, now: u64) -> (changed: bool)
        requires
            old(self)@.state == SessionState::Capturing ==> old(self)@.completed_reps < u32::MAX,
        ensures
            (changed, final(self)@) == old(self)@.updated(now),
    {
        match self.state {
            SessionState::Countdown => {
                let current_tick = self.countdown_value(now);
                if self.last_tick != Some(current_tick) && current_tick > 0 {
                    self.cue(AudioCue::Tick);
                    self.last_tick = Some(current_tick);
                }
                if self.elapsed_ms(now) >= self.config.countdown_ms {
                    self.transition_to(SessionState::Capturing, now);
                    self.cue(AudioCue::CaptureStart);
                    return true;
                }
                false
            },
            SessionState::Capturing => {
                if self.elapsed_ms(now) >= self.config.duration_ms {
                    self.on_capture_complete(now);
                    return true;
                }
                false
            },
            SessionState::Resting => {
                if self.elapsed_ms(now) >= self.config.rest_ms {
                    self.transition_to(SessionState::Countdown, now);
                    return true;
                }
                false
            },
            _ => false,
        }
    }

    /// Take the completed examples, leaving none behind.
    pub fn take_examples(&mut self) -> (r: Vec<Vec<F>>)
        ensures
            r@.map_values(|v: Vec<F>| v@) == old(self)@.completed_examples,
            final(self)@ == (SessionModel { completed_examples: Seq::empty(), ..old(self)@ }),
    {
        let mut taken: Vec<Vec<F>> = Vec::new();
        std::mem::swap(&mut taken, &mut self.completed_examples);
        assert(self.completed_examples@.map_values(|v: Vec<F>| v@) =~= Seq::<Seq<F>>::empty());
        taken
    }

    /// Take the audio cues queued so far, oldest first.
    pub fn take_cues(&mut self) -> (r: Vec<AudioCue>)
        ensures
            r@ == old(self)@.pending_cues,
            final(self)@ == (SessionModel { pending_cues: Seq::empty(), ..old(self)@ }),
    {
        let mut taken: Vec<AudioCue> = Vec::new();
        std::mem::swap(&mut taken, &mut self.pending_cues);
        taken
    }
}

/// The shown counts are read from the session's fields, so they are built here.
impl TrainingCountsDto {
    /// The counts of `session` as of `now`: its state's label, the gesture unless the
    /// session is Idle, the countdown number, the repetition under way (one past the
    /// completed ones, held at `u32::MAX`), the configured and completed repetitions, and
    /// the frames of the current capture.
    pub fn from_session<F>(session: &TrainingSession<F>, now: u64) -> (r: Self)
        ensures
            r.state@ == training_label(session@.state),
            r.gesture_id == (if session@.state != SessionState::Idle {
                Some(session@.gesture_id)
            } else {
                None
            }),
            r.countdown == session@.countdown_value(now),
            r.current_rep == (if session@.completed_reps < u32::MAX {
                (session@.completed_reps + 1) as u32
            } else {
                u32::MAX
            }),
            r.total_reps == session@.config.reps,
            r.completed_reps == session@.completed_reps,
            r.frame_count == session@.current_frames.len(),
    {
        let gesture_id = if session.state != SessionState::Idle {
            Some(session.gesture_id)
        } else {
            None
        };
        TrainingCountsDto {
            state: training_state_label(session.state).to_owned(),
            gesture_id,
            countdown: session.countdown_value(now),
            current_rep: session.completed_reps.saturating_add(1),
            total_reps: session.config.reps,
            completed_reps: session.completed_reps,
            frame_count: session.current_frame_count(),
        }
    }
}

} // verus!
