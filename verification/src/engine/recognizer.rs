//! Real-time recognition: the per-gesture VAD-style state machine, the sliding
//! frame window, the distance history, and the rolling hit log.
//!
//! ```text
//! IDLE → BUILDING → PEAK (fire!) → RECOVERY → IDLE
//! ```
//!
//! Distances are compared with thresholds by the caller; the machine receives the
//! outcome of those comparisons (below the entry threshold, falling) together with
//! a millisecond clock reading.

use vstd::prelude::*;

use super::sequence::{div_ceil, effective_step, lemma_index_below};

verus! {

/// State of the recognition state machine (per gesture)
#[derive(Debug, Clone, Copy, PartialEq, Eq, Structural)]
pub enum RecognitionState {
    /// Idle - waiting for gesture, ready to detect
    Idle,
    /// Building - distance below entry threshold, accumulating frames
    Building,
    /// Peak - gesture detected, fire OSC
    Peak,
    /// Recovery - hangover period after gesture, blocking new detections
    Recovery,
}

impl RecognitionState {
    /// The state's display name.
    pub fn name(&self) -> (r: &'static str)
        ensures
            r@ == (match *self {
                RecognitionState::Idle => "Idle"@,
                RecognitionState::Building => "Building"@,
                RecognitionState::Peak => "Peak"@,
                RecognitionState::Recovery => "Recovery"@,
            }),
    {
        match self {
            RecognitionState::Idle => "Idle",
            RecognitionState::Building => "Building",
            RecognitionState::Peak => "Peak",
            RecognitionState::Recovery => "Recovery",
        }
    }
}

/// Information about a state transition (for diagnostic logging)
#[derive(Debug, Clone, Copy)]
pub struct StateTransition {
    pub from_state: RecognitionState,
    pub to_state: RecognitionState,
    pub frames_in_prev_state: usize,
    pub reason: &'static str,
}

/// Result of processing a frame through the state machine
#[derive(Debug, Clone, Copy)]
pub struct StateMachineResult {
    /// Whether to fire a hit
    pub should_fire: bool,
    /// State transition that occurred (if any)
    pub transition: Option<StateTransition>,
}

/// What a gesture's state machine remembers.
pub struct MachineModel {
    pub state: RecognitionState,
    /// Consecutive frames below the entry threshold (counted while Building)
    pub frames_below_threshold: usize,
    /// When Recovery began (ms reading)
    pub recovery_start: Option<u64>,
    /// Consecutive frames above threshold while recovering
    pub recovery_frames_above: usize,
    /// When this gesture last fired (ms reading)
    pub last_hit_time: Option<u64>,
}

/// The outcome of the threshold comparisons for one frame.
#[derive(Debug, Clone, Copy, PartialEq, Eq, Structural)]
pub struct FrameReading {
    /// Distance is below the entry threshold
    pub below_entry: bool,
    /// Distance fell since the previous reading
    pub falling: bool,
}

impl MachineModel {
    /// Back to Idle with every counter cleared; the hit time is kept.
    pub open spec fn reset(self) -> Self {
        MachineModel {
            state: RecognitionState::Idle,
            frames_below_threshold: 0,
            recovery_start: None,
            recovery_frames_above: 0,
            ..self
        }
    }

    /// Milliseconds since Recovery began (zero when unknown or in the future).
    pub open spec fn recovery_elapsed(self, now: u64) -> nat {
        match self.recovery_start {
            Some(t) => if now >= t { (now - t) as nat } else { 0 },
            None => 0,
        }
    }

    /// One step of the machine: the machine afterwards, whether it fires, and the
    /// transition with its reason.
    ///
    /// - Idle enters Building when not suppressed and the distance is below the entry
    ///   threshold and falling; it fires at once when one frame is enough.
    /// - Building counts frames below the threshold and fires (Peak) at `frames_to_fire`;
    ///   a frame above the threshold sends it back to Idle.
    /// - Peak always moves to Recovery, which starts now.
    /// - Recovery returns to Idle once `cooldown_ms` have passed.
    pub open spec fn step(
        self,
        reading: FrameReading,
        suppressed: bool,
        frames_to_fire: usize,
        cooldown_ms: u64,
        now: u64,
    ) -> (Self, bool, Option<(RecognitionState, Seq<char>)>) {
        match self.state {
            RecognitionState::Idle => if !suppressed && reading.below_entry && reading.falling {
                if 1 >= frames_to_fire {
                    (
                        MachineModel {
                            state: RecognitionState::Peak,
                            frames_below_threshold: 1,
                            last_hit_time: Some(now),
                            ..self
                        },
                        true,
                        Some((RecognitionState::Peak, "below_threshold_instant_fire"@)),
                    )
                } else {
                    (
                        MachineModel {
                            state: RecognitionState::Building,
                            frames_below_threshold: 1,
                            ..self
                        },
                        false,
                        Some((RecognitionState::Building, "below_threshold_falling"@)),
                    )
                }
            } else {
                (self, false, None)
            },
            RecognitionState::Building => if reading.below_entry {
                if self.frames_below_threshold + 1 >= frames_to_fire {
                    (
                        MachineModel {
                            state: RecognitionState::Peak,
                            frames_below_threshold: (self.frames_below_threshold + 1) as usize,
                            last_hit_time: Some(now),
                            ..self
                        },
                        true,
                        Some((RecognitionState::Peak, "accumulated_frames"@)),
                    )
                } else {
                    (
                        MachineModel {
                            frames_below_threshold: (self.frames_below_threshold + 1) as usize,
                            ..self
                        },
                        false,
                        None,
                    )
                }
            } else {
                (self.reset(), false, Some((RecognitionState::Idle, "above_threshold"@)))
            },
            RecognitionState::Peak => (
                MachineModel {
                    state: RecognitionState::Recovery,
                    recovery_start: Some(now),
                    ..self
                },
                false,
                Some((RecognitionState::Recovery, "post_fire"@)),
            ),
            RecognitionState::Recovery => if self.recovery_elapsed(now) >= cooldown_ms {
                (self.reset(), false, Some((RecognitionState::Idle, "cooldown_complete"@)))
            } else {
                (self, false, None)
            },
        }
    }

    /// The transition record a step reports.
    pub open spec fn transition_matches(
        self,
        t: Option<StateTransition>,
        expected: Option<(RecognitionState, Seq<char>)>,
    ) -> bool {
        match expected {
            None => t is None,
            Some((to, reason)) => match t {
                Some(tr) => tr.from_state == self.state && tr.to_state == to
                    && tr.frames_in_prev_state == self.frames_below_threshold && tr.reason@
                    == reason,
                None => false,
            },
        }
    }
}


/// Whether each step of a run fires, starting from `m`, with no suppression and one clock reading.
pub open spec fn run_fires(
    m: MachineModel,
    rs: Seq<FrameReading>,
    frames_to_fire: usize,
    cooldown_ms: u64,
    now: u64,
) -> Seq<bool>
    decreases rs.len(),
{
    if rs.len() == 0 {
        Seq::empty()
    } else {
        let (post, fire, _) = m.step(rs[0], false, frames_to_fire, cooldown_ms, now);
        seq![fire] + run_fires(post, rs.drop_first(), frames_to_fire, cooldown_ms, now)
    }
}

/// A hit fires exactly when the machine enters Peak, and never twice in a row: Peak always
/// gives way to Recovery, and neither Peak nor Recovery fires.
pub proof fn fires_only_on_entering_peak(
    m: MachineModel,
    reading: FrameReading,
    suppressed: bool,
    frames_to_fire: usize,
    cooldown_ms: u64,
    now: u64,
)
    ensures
        ({
            let (post, fire, _) = m.step(reading, suppressed, frames_to_fire, cooldown_ms, now);
            &&& fire <==> (post.state == RecognitionState::Peak && m.state != RecognitionState::Peak)
            &&& fire ==> post.last_hit_time == Some(now)
            &&& m.state == RecognitionState::Peak ==> post.state == RecognitionState::Recovery
            &&& (m.state == RecognitionState::Peak || m.state == RecognitionState::Recovery) ==> !fire
        }),
{
}

/// Suppression (global cooldown or a failed consensus check), and readings that are not
/// falling, keep an Idle machine exactly as it was.
pub proof fn idle_needs_an_unsuppressed_falling_reading(
    m: MachineModel,
    reading: FrameReading,
    suppressed: bool,
    frames_to_fire: usize,
    cooldown_ms: u64,
    now: u64,
)
    requires
        m.state == RecognitionState::Idle,
        suppressed || !reading.falling || !reading.below_entry,
    ensures
        m.step(reading, suppressed, frames_to_fire, cooldown_ms, now) == (m, false, None::<(RecognitionState, Seq<char>)>),
{
}

/// Recovery re-arms (returns to Idle) exactly when the cooldown has passed since it began,
/// whatever the distance does.
pub proof fn recovery_rearms_after_cooldown(
    m: MachineModel,
    reading: FrameReading,
    suppressed: bool,
    frames_to_fire: usize,
    cooldown_ms: u64,
    now: u64,
)
    requires
        m.state == RecognitionState::Recovery,
    ensures
        ({
            let post = m.step(reading, suppressed, frames_to_fire, cooldown_ms, now).0;
            &&& post.state == RecognitionState::Idle <==> m.recovery_elapsed(now) >= cooldown_ms
            &&& post.state != RecognitionState::Idle ==> post == m
        }),
{
}

proof fn building_run_fires_at_count(
    m: MachineModel,
    rs: Seq<FrameReading>,
    frames_to_fire: usize,
    cooldown_ms: u64,
    now: u64,
)
    requires
        m.state == RecognitionState::Building,
        1 <= m.frames_below_threshold < frames_to_fire,
        rs.len() == frames_to_fire - m.frames_below_threshold,
        forall|i: int| 0 <= i < rs.len() ==> (#[trigger] rs[i]).below_entry,
    ensures
        run_fires(m, rs, frames_to_fire, cooldown_ms, now) =~= Seq::new(
            rs.len(),
            |i: int| i == rs.len() - 1,
        ),
    decreases rs.len(),
{
    let (post, fire, _) = m.step(rs[0], false, frames_to_fire, cooldown_ms, now);
    let rest = rs.drop_first();
    if rs.len() == 1 {
        assert(fire);
        assert(run_fires(post, rest, frames_to_fire, cooldown_ms, now) =~= Seq::<bool>::empty());
    } else {
        assert(!fire);
        assert forall|i: int| 0 <= i < rest.len() implies (#[trigger] rest[i]).below_entry by {
            assert(rest[i] == rs[i + 1]);
        }
        building_run_fires_at_count(post, rest, frames_to_fire, cooldown_ms, now);
    }
}

/// Frame accumulation: from Idle, a falling reading below the entry threshold followed by
/// readings that stay below it fires on exactly the `frames_to_fire`-th reading, and not before.
pub proof fn fires_after_consecutive_frames(
    m: MachineModel,
    rs: Seq<FrameReading>,
    frames_to_fire: usize,
    cooldown_ms: u64,
    now: u64,
)
    requires
        m.state == RecognitionState::Idle,
        frames_to_fire >= 1,
        rs.len() == frames_to_fire,
        rs[0].falling,
        forall|i: int| 0 <= i < rs.len() ==> (#[trigger] rs[i]).below_entry,
    ensures
        run_fires(m, rs, frames_to_fire, cooldown_ms, now) =~= Seq::new(
            rs.len(),
            |i: int| i == rs.len() - 1,
        ),
{
    assert(rs[0].below_entry);
    let (post, fire, _) = m.step(rs[0], false, frames_to_fire, cooldown_ms, now);
    let rest = rs.drop_first();
    if frames_to_fire == 1 {
        assert(run_fires(post, rest, frames_to_fire, cooldown_ms, now) =~= Seq::<bool>::empty());
    } else {
        assert forall|i: int| 0 <= i < rest.len() implies (#[trigger] rest[i]).below_entry by {
            assert(rest[i] == rs[i + 1]);
        }
        building_run_fires_at_count(post, rest, frames_to_fire, cooldown_ms, now);
    }
}

/// The recognition state machine of one gesture.
#[derive(Debug)]
pub struct GestureStateMachine {
    state: RecognitionState,
    frames_below_threshold: usize,
    recovery_start: Option<u64>,
    recovery_frames_above: usize,
    last_hit_time: Option<u64>,
}

impl View for GestureStateMachine {
    type V = MachineModel;

    closed spec fn view(&self) -> MachineModel {
        MachineModel {
            state: self.state,
            frames_below_threshold: self.frames_below_threshold,
            recovery_start: self.recovery_start,
            recovery_frames_above: self.recovery_frames_above,
            last_hit_time: self.last_hit_time,
        }
    }
}

impl GestureStateMachine {
    /// While Building, the count of frames below threshold stays under the firing count,
    /// so it can always grow by one.
    #[verifier::type_invariant]
    spec fn counter_has_room(&self) -> bool {
        self.state == RecognitionState::Building ==> self.frames_below_threshold < usize::MAX
    }

    /// A machine in Idle that has never fired.
    pub fn new() -> (m: Self)
        ensures
            m@ == (MachineModel {
                state: RecognitionState::Idle,
                frames_below_threshold: 0,
                recovery_start: None,
                recovery_frames_above: 0,
                last_hit_time: None,
            }),
    {
        GestureStateMachine {
            state: RecognitionState::Idle,
            frames_below_threshold: 0,
            recovery_start: None,
            recovery_frames_above: 0,
            last_hit_time: None,
        }
    }

    /// Current recognition state.
    pub fn recognition_state(&self) -> (r: RecognitionState)
        ensures
            r == self@.state,
    {
        self.state
    }

    /// Consecutive frames counted below the entry threshold.
    pub fn frames_below_threshold(&self) -> (r: usize)
        ensures
            r == self@.frames_below_threshold,
    {
        self.frames_below_threshold
    }

    /// When this gesture last fired.
    pub fn last_hit_time(&self) -> (r: Option<u64>)
        ensures
            r == self@.last_hit_time,
    {
        self.last_hit_time
    }

    /// Reset the machine to Idle (the last hit time is kept).
    pub fn reset_to_idle(&mut self)
        ensures
            final(self)@ == old(self)@.reset(),
    {
        self.state = RecognitionState::Idle;
        self.frames_below_threshold = 0;
        self.recovery_start = None;
        self.recovery_frames_above = 0;
    }

    /// Remember that the gesture fired at `now`.
    pub fn record_hit(&mut self, now: u64)
        ensures
            final(self)@ == (MachineModel { last_hit_time: Some(now), ..old(self)@ }),
    {
        proof {
            use_type_invariant(&*self);
        }
        self.last_hit_time = Some(now);
    }

    /// True when the gesture fired less than `cooldown_ms` before `now`.
    pub fn in_cooldown(&self, cooldown_ms: u64, now: u64) -> (r: bool)
        ensures
            r == (match self@.last_hit_time {
                Some(t) => (if now >= t { now - t } else { 0 }) < cooldown_ms,
                None => false,
            }),
    {
        match self.last_hit_time {
            Some(t) => {
                let elapsed = if now >= t { now - t } else { 0 };
                elapsed < cooldown_ms
            },
            None => false,
        }
    }

    /// Process one frame's reading through the state machine.
    ///
    /// `suppressed` (global cooldown, or a failed consensus check) blocks Idle → Building.
    pub fn process(
        &mut self,
        reading: FrameReading,
        suppressed: bool,
        frames_to_fire: usize,
        cooldown_ms: u64,
        now: u64,
    ) -> (r: StateMachineResult)
        ensures
            ({
                let (post, fire, tr) = old(self)@.step(reading, suppressed, frames_to_fire, cooldown_ms, now);
                &&& final(self)@ == post
                &&& r.should_fire == fire
                &&& old(self)@.transition_matches(r.transition, tr)
            }),
    {
        proof {
            use_type_invariant(&*self);
        }
        let prev_state = self.state;
        let prev_frames = self.frames_below_threshold;
        let mut should_fire = false;
        let mut new_state: Option<RecognitionState> = None;
        let mut reason: &'static str = "";
        match self.state {
            RecognitionState::Idle => {
                if !suppressed && reading.below_entry && reading.falling {
                    if 1 >= frames_to_fire {
                        self.frames_below_threshold = 1;
                        self.state = RecognitionState::Peak;
                        self.last_hit_time = Some(now);
                        should_fire = true;
                        new_state = Some(RecognitionState::Peak);
                        reason = "below_threshold_instant_fire";
                    } else {
                        self.frames_below_threshold = 1;
                        self.state = RecognitionState::Building;
                        new_state = Some(RecognitionState::Building);
                        reason = "below_threshold_falling";
                    }
                }
            },
            RecognitionState::Building => {
                if reading.below_entry {
                    let count = self.frames_below_threshold + 1;
                    if count >= frames_to_fire {
                        self.state = RecognitionState::Peak;
                        self.frames_below_threshold = count;
                        self.last_hit_time = Some(now);
                        should_fire = true;
                        new_state = Some(RecognitionState::Peak);
                        reason = "accumulated_frames";
                    } else {
                        self.frames_below_threshold = count;
                    }
                } else {
                    self.reset_to_idle();
                    new_state = Some(RecognitionState::Idle);
                    reason = "above_threshold";
                }
            },
            RecognitionState::Peak => {
                self.state = RecognitionState::Recovery;
                self.recovery_start = Some(now);
                new_state = Some(RecognitionState::Recovery);
                reason = "post_fire";
            },
            RecognitionState::Recovery => {
                let elapsed = match self.recovery_start {
                    Some(t) => if now >= t { now - t } else { 0 },
                    None => 0,
                };
                if elapsed >= cooldown_ms {
                    self.reset_to_idle();
                    new_state = Some(RecognitionState::Idle);
                    reason = "cooldown_complete";
                }
            },
        }
        let transition = match new_state {
            Some(to_state) => Some(
                StateTransition {
                    from_state: prev_state,
                    to_state,
                    frames_in_prev_state: prev_frames,
                    reason,
                },
            ),
            None => None,
        };
        StateMachineResult { should_fire, transition }
    }
}


/// True when `last` is a reading less than `window_ms` before `now`.
pub open spec fn within_window(last: Option<u64>, window_ms: u64, now: u64) -> bool {
    match last {
        Some(t) => (if now >= t { now - t } else { 0 }) < window_ms,
        None => false,
    }
}

/// Global cooldown (non-maximum suppression over time): true while less than `window_ms`
/// have passed since any gesture last fired.
pub fn in_global_cooldown(last_any_hit: Option<u64>, window_ms: u64, now: u64) -> (r: bool)
    ensures
        r == within_window(last_any_hit, window_ms, now),
{
    match last_any_hit {
        Some(t) => {
            let elapsed = if now >= t { now - t } else { 0 };
            elapsed < window_ms
        },
        None => false,
    }
}

/// A hit starts the global cooldown: right after a gesture fires, every gesture is
/// suppressed for the next `window_ms` milliseconds, and free again from then on.
pub proof fn a_hit_starts_the_global_cooldown(window_ms: u64, hit: u64, now: u64)
    requires
        now >= hit,
    ensures
        within_window(Some(hit), window_ms, now) <==> now - hit < window_ms,
{
}

/// Run the state machines of all gestures for one recognition cycle.
///
/// Only the best-matching gesture (`best`, which must have a distance) steps its machine;
/// every other gesture with a distance that is Building is reset to Idle, so that no two
/// gestures build at once. Gestures without a distance are left alone. Returns the best
/// gesture's step result.
pub fn advance_machines(
    machines: &mut Vec<GestureStateMachine>,
    has_distance: &Vec<bool>,
    best: Option<usize>,
    reading: FrameReading,
    suppressed: bool,
    frames_to_fire: usize,
    cooldown_ms: u64,
    now: u64,
) -> (r: Option<StateMachineResult>)
    requires
        has_distance@.len() == old(machines)@.len(),
    ensures
        final(machines)@.len() == old(machines)@.len(),
        forall|i: int|
            0 <= i < old(machines)@.len() && has_distance@[i] && best != Some(i as usize)
                ==> (#[trigger] final(machines)@[i]@).state != RecognitionState::Building,
        forall|i: int|
            0 <= i < old(machines)@.len() ==> {
                let m = old(machines)@[i]@;
                #[trigger] final(machines)@[i]@ == (if !has_distance@[i] {
                    m
                } else if best == Some(i as usize) {
                    m.step(reading, suppressed, frames_to_fire, cooldown_ms, now).0
                } else if m.state == RecognitionState::Building {
                    m.reset()
                } else {
                    m
                })
            },
        match best {
            Some(b) => if b < old(machines)@.len() && has_distance@[b as int] {
                match r {
                    Some(res) => {
                        let (_, fire, tr) = old(machines)@[b as int]@.step(
                            reading,
                            suppressed,
                            frames_to_fire,
                            cooldown_ms,
                            now,
                        );
                        &&& res.should_fire == fire
                        &&& old(machines)@[b as int]@.transition_matches(res.transition, tr)
                    },
                    None => false,
                }
            } else {
                r is None
            },
            None => r is None,
        },
{
    let n = machines.len();
    let mut result: Option<StateMachineResult> = None;
    let mut i: usize = 0;
    while i < n
        invariant
            n == old(machines)@.len(),
            machines@.len() == n,
            has_distance@.len() == n,
            0 <= i <= n,
            forall|j: int|
                0 <= j < i ==> {
                    let m = old(machines)@[j]@;
                    #[trigger] machines@[j]@ == (if !has_distance@[j] {
                        m
                    } else if best == Some(j as usize) {
                        m.step(reading, suppressed, frames_to_fire, cooldown_ms, now).0
                    } else if m.state == RecognitionState::Building {
                        m.reset()
                    } else {
                        m
                    })
                },
            forall|j: int| i <= j < n ==> #[trigger] machines@[j] == old(machines)@[j],
            match best {
                Some(b) => if b < i && has_distance@[b as int] {
                    match result {
                        Some(res) => {
                            let (_, fire, tr) = old(machines)@[b as int]@.step(
                                reading,
                                suppressed,
                                frames_to_fire,
                                cooldown_ms,
                                now,
                            );
                            &&& res.should_fire == fire
                            &&& old(machines)@[b as int]@.transition_matches(res.transition, tr)
                        },
                        None => false,
                    }
                } else {
                    result is None
                },
                None => result is None,
            },
        decreases n - i,
    {
        if has_distance[i] {
            if best == Some(i) {
                let res = machines[i].process(reading, suppressed, frames_to_fire, cooldown_ms, now);
                result = Some(res);
            } else if machines[i].recognition_state() == RecognitionState::Building {
                machines[i].reset_to_idle();
            }
        }
        i = i + 1;
    }
    result
}

/// How many frames the matching window holds after adding an example of `example_len`
/// frames: the first example (or a zero window) sets it, later examples leave it.
pub fn window_size_after_example(window_size: usize, examples_before: usize, example_len: usize) -> (r: usize)
    ensures
        r == (if window_size == 0 || examples_before == 0 { example_len } else { window_size }),
{
    if window_size == 0 || examples_before == 0 {
        example_len
    } else {
        window_size
    }
}



/// A bounded queue after appending `x`: the oldest element leaves first when `cap` are
/// already held (a queue always keeps the element just appended).
pub open spec fn after_push<T>(q: Seq<T>, cap: nat, x: T) -> Seq<T> {
    (if q.len() >= cap && q.len() > 0 { q.drop_first() } else { q }).push(x)
}

/// A bounded queue never grows past its capacity (or one, for a zero capacity), keeps the
/// element just appended as its newest, and keeps the newest of the elements before it in
/// order.
pub proof fn bounded_queue_keeps_newest<T>(q: Seq<T>, cap: nat, x: T)
    requires
        q.len() <= if cap == 0 { 1 } else { cap },
    ensures
        after_push(q, cap, x).len() <= if cap == 0 { 1 } else { cap },
        after_push(q, cap, x).last() == x,
        after_push(q, cap, x).drop_last() == q.subrange(q.len() - after_push(q, cap, x).drop_last().len(), q.len() as int),
{
    let p = after_push(q, cap, x);
    if q.len() >= cap && q.len() > 0 {
        assert(p.drop_last() =~= q.subrange(1, q.len() as int));
    } else {
        assert(p.drop_last() =~= q.subrange(0, q.len() as int));
    }
}

/// Number of distance samples kept for slope checking.
pub const DISTANCE_HISTORY_SIZE: usize = 3;

/// The most recent distance readings of a gesture (at most three), oldest first.
#[derive(Debug)]
pub struct DistanceHistory<T> {
    values: std::collections::VecDeque<T>,
}

impl<T> View for DistanceHistory<T> {
    type V = Seq<T>;

    closed spec fn view(&self) -> Seq<T> {
        self.values@
    }
}

impl<T> DistanceHistory<T> {
    /// An empty history.
    pub fn new() -> (h: Self)
        ensures
            h@ == Seq::<T>::empty(),
    {
        DistanceHistory { values: std::collections::VecDeque::new() }
    }

    /// Number of readings held.
    pub fn len(&self) -> (r: usize)
        ensures
            r == self@.len(),
    {
        self.values.len()
    }

    /// Record a reading, dropping the oldest once three are held.
    pub fn record(&mut self, value: T)
        ensures
            final(self)@ == (if old(self)@.len() >= DISTANCE_HISTORY_SIZE {
                old(self)@.drop_first()
            } else {
                old(self)@
            }).push(value),
    {
        if self.values.len() >= DISTANCE_HISTORY_SIZE {
            let _ = self.values.pop_front();
        }
        self.values.push_back(value);
    }

    /// The reading before the latest one, when there are at least two.
    pub fn previous(&self) -> (r: Option<&T>)
        ensures
            r == (if self@.len() >= 2 { Some(&self@[self@.len() - 2]) } else { None }),
    {
        let n = self.values.len();
        if n >= 2 {
            Some(&self.values[n - 2])
        } else {
            None
        }
    }
}

/// Two frames hold the same number of values, each a clone of the other's.
pub open spec fn frame_cloned<T: Clone>(a: Vec<T>, b: Vec<T>) -> bool {
    &&& a@.len() == b@.len()
    &&& forall|j: int| 0 <= j < a@.len() ==> cloned::<T>(#[trigger] a@[j], b@[j])
}

/// Clone one frame.
fn clone_frame<T: Clone>(frame: &Vec<T>) -> (r: Vec<T>)
    ensures
        frame_cloned(*frame, r),
{
    frame.clone()
}

/// Sliding window of the most recent frames (at most `max_size`, and always the last one pushed).
#[derive(Debug)]
pub struct FrameBuffer<T> {
    frames: std::collections::VecDeque<Vec<T>>,
    max_size: usize,
}

impl<T> View for FrameBuffer<T> {
    type V = Seq<Vec<T>>;

    closed spec fn view(&self) -> Seq<Vec<T>> {
        self.frames@
    }
}

impl<T: Clone> FrameBuffer<T> {
    /// The capacity the buffer was made with.
    pub closed spec fn capacity(&self) -> nat {
        self.max_size as nat
    }

    /// An empty buffer holding at most `max_size` frames.
    pub fn new(max_size: usize) -> (b: Self)
        ensures
            b@ == Seq::<Vec<T>>::empty(),
            b.capacity() == max_size,
    {
        FrameBuffer { frames: std::collections::VecDeque::new(), max_size }
    }

    /// Append a frame, dropping the oldest one when the buffer is full.
    pub fn push(&mut self, frame: Vec<T>)
        ensures
            final(self)@ == after_push(old(self)@, old(self).capacity(), frame),
            final(self).capacity() == old(self).capacity(),
    {
        if self.frames.len() >= self.max_size {
            let _ = self.frames.pop_front();
        }
        self.frames.push_back(frame);
    }

    /// Number of frames held.
    pub fn len(&self) -> (r: usize)
        ensures
            r == self@.len(),
    {
        self.frames.len()
    }

    /// The dimension count of the oldest frame, or None when empty.
    pub fn frame_dimensions(&self) -> (r: Option<usize>)
        ensures
            r == (if self@.len() == 0 { None } else { Some(self@[0].len()) }),
    {
        if self.frames.len() == 0 {
            None
        } else {
            Some(self.frames[0].len())
        }
    }

    /// The most recent `n` frames, oldest first (all of them when fewer are held).
    pub fn recent(&self, n: usize) -> (r: Vec<Vec<T>>)
        ensures
            ({
                let start = if self@.len() >= n { self@.len() - n } else { 0 };
                &&& r@.len() == self@.len() - start
                &&& forall|k: int|
                    0 <= k < r@.len() ==> frame_cloned(self@[start + k], #[trigger] r@[k])
            }),
    {
        let len = self.frames.len();
        let start = if len >= n { len - n } else { 0 };
        let mut out: Vec<Vec<T>> = Vec::new();
        let mut i = start;
        while i < len
            invariant
                len == self@.len(),
                start <= i <= len,
                out@.len() == i - start,
                forall|k: int| 0 <= k < out@.len() ==> frame_cloned(self@[start + k], #[trigger] out@[k]),
            decreases len - i,
        {
            out.push(clone_frame(&self.frames[i]));
            i = i + 1;
        }
        out
    }

    /// Every `factor`-th of the most recent `n` frames (all of them when fewer are held),
    /// oldest first, starting with the oldest of them: the window a recognition
    /// cycle matches, downsampled.
    pub fn window(&self, n: usize, factor: usize) -> (r: Vec<Vec<T>>)
        ensures
            ({
                let start = if self@.len() >= n { self@.len() - n } else { 0 };
                let step = effective_step(factor);
                &&& r@.len() == div_ceil((self@.len() - start) as nat, step)
                &&& forall|k: int|
                    0 <= k < r@.len() ==> frame_cloned(self@[start + k * step], #[trigger] r@[k])
            }),
    {
        let len = self.frames.len();
        let start = if len >= n { len - n } else { 0 };
        let step: usize = if factor <= 1 { 1 } else { factor };
        let span = len - start;
        let count: usize = if span % step == 0 {
            span / step
        } else {
            assert(span / step < usize::MAX) by (nonlinear_arith)
                requires
                    step >= 2,
                    span <= usize::MAX,
            ;
            span / step + 1
        };
        let mut out: Vec<Vec<T>> = Vec::new();
        let mut k: usize = 0;
        while k < count
            invariant
                len == self@.len(),
                start <= len,
                span == len - start,
                step == effective_step(factor),
                step >= 1,
                count == div_ceil(span as nat, step as nat),
                k <= count,
                out@.len() == k,
                forall|j: int|
                    0 <= j < out@.len() ==> frame_cloned(self@[start + j * step], #[trigger] out@[j]),
            decreases count - k,
        {
            proof {
                lemma_index_below(span as nat, step as nat, k as nat);
            }
            let idx = start + k * step;
            out.push(clone_frame(&self.frames[idx]));
            k = k + 1;
        }
        out
    }

    /// Remove every frame.
    pub fn clear(&mut self)
        ensures
            final(self)@ == Seq::<Vec<T>>::empty(),
            final(self).capacity() == old(self).capacity(),
    {
        self.frames.clear();
    }
}

/// One hit in the log.
#[derive(Debug)]
pub struct HitLogEntry<D> {
    /// When the hit fired (ms reading)
    pub timestamp: u64,
    pub gesture_id: u32,
    pub gesture_name: String,
    pub distance: D,
    pub osc_address: String,
}

/// Rolling log of recent hits, oldest first.
#[derive(Debug)]
pub struct HitLog<D> {
    entries: std::collections::VecDeque<HitLogEntry<D>>,
    max_entries: usize,
}

impl<D> View for HitLog<D> {
    type V = Seq<HitLogEntry<D>>;

    closed spec fn view(&self) -> Seq<HitLogEntry<D>> {
        self.entries@
    }
}

impl<D> HitLog<D> {
    /// The number of entries the log was made to keep.
    pub closed spec fn capacity(&self) -> nat {
        self.max_entries as nat
    }

    /// An empty log keeping at most `max_entries` hits.
    pub fn new(max_entries: usize) -> (l: Self)
        ensures
            l@ == Seq::<HitLogEntry<D>>::empty(),
            l.capacity() == max_entries,
    {
        HitLog { entries: std::collections::VecDeque::new(), max_entries }
    }

    /// Record a hit at `now`, dropping the oldest entry when the log is full.
    pub fn record(&mut self, gesture_id: u32, gesture_name: &str, distance: D, osc_address: &str, now: u64)
        ensures
            final(self).capacity() == old(self).capacity(),
            final(self)@.drop_last() == after_push(old(self)@, old(self).capacity(), final(self)@.last()).drop_last(),
            final(self)@.len() > 0,
            ({
                let e = final(self)@.last();
                &&& e.timestamp == now
                &&& e.gesture_id == gesture_id
                &&& e.gesture_name@ == gesture_name@
                &&& e.distance == distance
                &&& e.osc_address@ == osc_address@
            }),
    {
        if self.entries.len() >= self.max_entries {
            let _ = self.entries.pop_front();
        }
        let ghost kept = self.entries@;
        self.entries.push_back(
            HitLogEntry {
                timestamp: now,
                gesture_id,
                gesture_name: gesture_name.to_owned(),
                distance,
                osc_address: osc_address.to_owned(),
            },
        );
        assert(self.entries@.drop_last() =~= kept);
    }

    /// The most recent `count` hits, newest first.
    pub fn recent(&self, count: usize) -> (r: Vec<&HitLogEntry<D>>)
        ensures
            r@.len() == (if count <= self@.len() { count as nat } else { self@.len() }),
            forall|k: int| 0 <= k < r@.len() ==> *(#[trigger] r@[k]) == self@[self@.len() - 1 - k],
    {
        let n = self.entries.len();
        let take = if count <= n { count } else { n };
        let mut out: Vec<&HitLogEntry<D>> = Vec::new();
        let mut k: usize = 0;
        while k < take
            invariant
                n == self@.len(),
                take <= n,
                k <= take,
                out@.len() == k,
                forall|j: int| 0 <= j < k ==> *(#[trigger] out@[j]) == self@[n - 1 - j],
            decreases take - k,
        {
            out.push(&self.entries[n - 1 - k]);
            k = k + 1;
        }
        out
    }

    /// Number of hits held.
    pub fn len(&self) -> (r: usize)
        ensures
            r == self@.len(),
    {
        self.entries.len()
    }

    /// True when no hit is held.
    pub fn is_empty(&self) -> (r: bool)
        ensures
            r == (self@.len() == 0),
    {
        self.entries.len() == 0
    }

    /// Forget every hit.
    pub fn clear(&mut self)
        ensures
            final(self)@ == Seq::<HitLogEntry<D>>::empty(),
            final(self).capacity() == old(self).capacity(),
    {
        self.entries.clear();
    }
}


/// Recognition cycles run on every this-many-th frame.
pub const DTW_SKIP: usize = 4;

/// Frames of the window taken per matched frame.
pub const DOWNSAMPLE: usize = 4;

/// What one incoming frame amounts to.
#[derive(Debug)]
pub enum FrameOutcome<T> {
    /// Its dimension count differs from the buffered frames': dropped, nothing counted.
    Rejected,
    /// Buffered; recognition is off or the window is not full yet.
    Buffered,
    /// Buffered; not a matching frame (only every `DTW_SKIP`-th is matched).
    Skipped,
    /// Buffered; the window to match, downsampled.
    Match(Vec<Vec<T>>),
}

/// The frame-handling side of the recognizer: the buffer of recent frames, the
/// on/off switch, the matching window's length and the cadence of matching.
#[derive(Debug)]
pub struct RecognitionWindow<T> {
    buffer: FrameBuffer<T>,
    active: bool,
    window_size: usize,
    frame_count: usize,
    dtw_skip: usize,
    downsample: usize,
}

/// Model of a recognition window.
pub struct WindowModel<T> {
    pub frames: Seq<Vec<T>>,
    pub capacity: nat,
    pub active: bool,
    pub window_size: nat,
    pub frame_count: nat,
    pub dtw_skip: nat,
    pub downsample: nat,
}

impl<T: Clone> View for RecognitionWindow<T> {
    type V = WindowModel<T>;

    closed spec fn view(&self) -> WindowModel<T> {
        WindowModel {
            frames: self.buffer@,
            capacity: self.buffer.capacity(),
            active: self.active,
            window_size: self.window_size as nat,
            frame_count: self.frame_count as nat,
            dtw_skip: self.dtw_skip as nat,
            downsample: self.downsample as nat,
        }
    }
}

/// `count + 1`, wrapping to zero past `usize::MAX`.
pub open spec fn next_count(count: nat) -> nat {
    if count < usize::MAX {
        count + 1
    } else {
        0
    }
}

/// A frame is taken when nothing is buffered yet or it has as many values as the oldest
/// buffered frame.
pub open spec fn fits<T>(frames: Seq<Vec<T>>, frame: Vec<T>) -> bool {
    frames.len() == 0 || frame.len() == frames[0].len()
}

/// True when a window that has just taken a frame starts a recognition cycle: recognition
/// is on, the window is full, and the frame count is a multiple of the matching interval.
pub open spec fn is_match_cycle<T>(w: WindowModel<T>) -> bool {
    &&& w.active
    &&& w.window_size > 0
    &&& w.frames.len() >= w.window_size
    &&& w.dtw_skip > 0
    &&& w.frame_count % w.dtw_skip == 0
}

/// The window after offering it `frame`: buffered and counted when it fits, unchanged when not.
pub open spec fn after_take<T>(w: WindowModel<T>, frame: Vec<T>) -> WindowModel<T> {
    if fits(w.frames, frame) {
        WindowModel {
            frames: after_push(w.frames, w.capacity, frame),
            frame_count: next_count(w.frame_count),
            ..w
        }
    } else {
        w
    }
}

/// Whether offering `frame` starts a recognition cycle.
pub open spec fn take_matches<T>(w: WindowModel<T>, frame: Vec<T>) -> bool {
    fits(w.frames, frame) && is_match_cycle(after_take(w, frame))
}

/// The window after offering it `frames`, in order.
pub open spec fn after_takes<T>(w: WindowModel<T>, frames: Seq<Vec<T>>) -> WindowModel<T>
    decreases frames.len(),
{
    if frames.len() == 0 {
        w
    } else {
        after_take(after_takes(w, frames.drop_last()), frames.last())
    }
}

proof fn lemma_takes_grow_by_at_most_one_each<T>(w: WindowModel<T>, frames: Seq<Vec<T>>)
    ensures
        after_takes(w, frames).frames.len() <= w.frames.len() + frames.len(),
        after_takes(w, frames).window_size == w.window_size,
        after_takes(w, frames).capacity == w.capacity,
    decreases frames.len(),
{
    if frames.len() > 0 {
        lemma_takes_grow_by_at_most_one_each(w, frames.drop_last());
    }
}

/// After the buffer is emptied (as after a hit), the window must fill up again before
/// anything is matched: none of the next `window_size - 1` frames starts a recognition
/// cycle, whatever they hold.
pub proof fn buffer_refills_before_matching<T>(w: WindowModel<T>, frames: Seq<Vec<T>>)
    requires
        w.frames.len() == 0,
        frames.len() < w.window_size,
    ensures
        forall|i: int|
            0 <= i < frames.len() ==> !take_matches(
                #[trigger] after_takes(w, frames.take(i)),
                frames[i],
            ),
{
    assert forall|i: int| 0 <= i < frames.len() implies !take_matches(
        #[trigger] after_takes(w, frames.take(i)),
        frames[i],
    ) by {
        let before = after_takes(w, frames.take(i));
        lemma_takes_grow_by_at_most_one_each(w, frames.take(i));
        let after = after_take(before, frames[i]);
        assert(after.frames.len() <= before.frames.len() + 1);
        assert(after.window_size == w.window_size);
    }
}

/// Every buffered frame has `d` values.
pub open spec fn all_of_dimension<T>(frames: Seq<Vec<T>>, d: nat) -> bool {
    forall|k: int| 0 <= k < frames.len() ==> (#[trigger] frames[k]).len() == d
}

proof fn lemma_takes_of_one_dimension<T>(w: WindowModel<T>, frames: Seq<Vec<T>>, d: nat)
    requires
        all_of_dimension(w.frames, d),
        all_of_dimension(frames, d),
        w.frame_count + frames.len() <= usize::MAX,
    ensures
        ({
            let a = after_takes(w, frames);
            &&& all_of_dimension(a.frames, d)
            &&& a.frames.len() >= w.frames.len()
            &&& a.frame_count == w.frame_count + frames.len()
            &&& a.active == w.active
            &&& a.window_size == w.window_size
            &&& a.dtw_skip == w.dtw_skip
            &&& a.capacity == w.capacity
        }),
    decreases frames.len(),
{
    if frames.len() > 0 {
        let rest = frames.drop_last();
        assert(all_of_dimension(rest, d)) by {
            assert forall|k: int| 0 <= k < rest.len() implies (#[trigger] rest[k]).len() == d by {
                assert(rest[k] == frames[k]);
            }
        }
        lemma_takes_of_one_dimension(w, rest, d);
        let b = after_takes(w, rest);
        let x = frames.last();
        assert(x == frames[frames.len() - 1]);
        let q = if b.frames.len() >= b.capacity && b.frames.len() > 0 {
            b.frames.drop_first()
        } else {
            b.frames
        };
        assert(all_of_dimension(q.push(x), d)) by {
            assert forall|k: int| 0 <= k < q.push(x).len() implies (#[trigger] q.push(x)[k]).len()
                == d by {
                if k < q.len() {
                    if b.frames.len() >= b.capacity && b.frames.len() > 0 {
                        assert(q[k] == b.frames[k + 1]);
                    }
                }
            }
        }
    }
}

/// Once the window is full, the frames matched are exactly those that bring the running
/// count of frames taken to a multiple of the matching interval, whatever the buffer's
/// length or capacity: a fitting frame offered to a full, active window starts a
/// recognition cycle exactly when `frame_count + 1` is a multiple of `dtw_skip`.
pub proof fn a_full_window_matches_on_the_frame_count<T>(w: WindowModel<T>, frame: Vec<T>)
    requires
        w.active,
        w.window_size > 0,
        w.dtw_skip > 0,
        w.frames.len() >= w.window_size,
        frame.len() == w.frames[0].len(),
        w.frame_count < usize::MAX,
    ensures
        take_matches(w, frame) <==> (w.frame_count + 1) % w.dtw_skip == 0,
        after_take(w, frame).frame_count == w.frame_count + 1,
{
    let a = after_take(w, frame);
    assert(a.frames.len() >= w.frames.len());
}

/// Nothing is matched while recognition is off, before the window is full, or on a frame
/// of another dimension than the buffered ones; and a matched frame is buffered and
/// counted.
pub proof fn matching_needs_an_active_full_window<T>(w: WindowModel<T>, frame: Vec<T>)
    ensures
        take_matches(w, frame) ==> {
            let a = after_take(w, frame);
            &&& w.active
            &&& w.frames.len() == 0 || frame.len() == w.frames[0].len()
            &&& a.frames.len() >= w.window_size > 0
            &&& a.frames.last() == frame
            &&& a.frame_count == next_count(w.frame_count)
        },
        !w.active ==> !take_matches(w, frame),
        w.frames.len() > 0 && frame.len() != w.frames[0].len() ==> !take_matches(w, frame)
            && after_take(w, frame) == w,
        w.frames.len() + 1 < w.window_size ==> !take_matches(w, frame),
{
}

/// Of any `dtw_skip` consecutive frames of one dimension taken into a full, active window,
/// exactly one starts a recognition cycle.
pub proof fn one_match_in_each_interval<T>(w: WindowModel<T>, frames: Seq<Vec<T>>, d: nat)
    requires
        w.active,
        w.window_size > 0,
        w.dtw_skip > 0,
        w.frames.len() >= w.window_size,
        all_of_dimension(w.frames, d),
        all_of_dimension(frames, d),
        frames.len() == w.dtw_skip,
        w.frame_count + frames.len() <= usize::MAX,
    ensures
        exists|i: int|
            0 <= i < frames.len() && take_matches(#[trigger] after_takes(w, frames.take(i)), frames[i]),
        forall|i: int, j: int|
            0 <= i < frames.len() && 0 <= j < frames.len()
                && take_matches(#[trigger] after_takes(w, frames.take(i)), frames[i])
                && take_matches(#[trigger] after_takes(w, frames.take(j)), frames[j]) ==> i == j,
{
    let s: int = w.dtw_skip as int;
    let fc: int = w.frame_count as int;
    assert forall|i: int| 0 <= i < frames.len() implies (take_matches(
        #[trigger] after_takes(w, frames.take(i)),
        frames[i],
    ) <==> (fc + i + 1) % s == 0) by {
        let pre = frames.take(i);
        assert(all_of_dimension(pre, d)) by {
            assert forall|k: int| 0 <= k < pre.len() implies (#[trigger] pre[k]).len() == d by {
                assert(pre[k] == frames[k]);
            }
        }
        lemma_takes_of_one_dimension(w, pre, d);
        let b = after_takes(w, pre);
        assert(b.frames[0].len() == d);
        a_full_window_matches_on_the_frame_count(b, frames[i]);
    }
    let i0: int = s - 1 - fc % s;
    assert(0 <= i0 < s && (fc + i0 + 1) % s == 0) by (nonlinear_arith)
        requires
            s > 0,
            i0 == s - 1 - fc % s,
    {
        vstd::arithmetic::div_mod::lemma_fundamental_div_mod(fc, s);
        vstd::arithmetic::div_mod::lemma_mod_bound(fc, s);
        assert(fc + i0 + 1 == (fc / s + 1) * s);
        vstd::arithmetic::div_mod::lemma_mod_multiples_basic(fc / s + 1, s);
    }
    assert(take_matches(after_takes(w, frames.take(i0)), frames[i0]));
    assert forall|i: int, j: int|
        0 <= i < frames.len() && 0 <= j < frames.len()
            && take_matches(#[trigger] after_takes(w, frames.take(i)), frames[i])
            && take_matches(#[trigger] after_takes(w, frames.take(j)), frames[j]) implies i == j by {
        if i != j {
            let lo = if i < j { i } else { j };
            let hi = if i < j { j } else { i };
            assert((fc + lo + 1) % s == 0 && (fc + hi + 1) % s == 0);
            assert(false) by (nonlinear_arith)
                requires
                    s > 0,
                    0 <= lo < hi < s,
                    (fc + lo + 1) % s == 0,
                    (fc + hi + 1) % s == 0,
            {
                vstd::arithmetic::div_mod::lemma_fundamental_div_mod(fc + lo + 1, s);
                vstd::arithmetic::div_mod::lemma_fundamental_div_mod(fc + hi + 1, s);
                let qa = (fc + lo + 1) / s;
                let qb = (fc + hi + 1) / s;
                assert(hi - lo == (qb - qa) * s);
                if qb - qa <= 0 {
                    assert((qb - qa) * s <= 0);
                } else {
                    assert((qb - qa) * s >= s);
                }
            }
        }
    }
}

impl<T: Clone> RecognitionWindow<T> {
    /// Inactive, empty buffer of `buffer_size` frames, window of `window_size` frames,
    /// matching on every fourth frame at a quarter of the frame rate.
    pub fn new(buffer_size: usize, window_size: usize) -> (w: Self)
        ensures
            w@.frames == Seq::<Vec<T>>::empty(),
            w@.capacity == buffer_size,
            !w@.active,
            w@.window_size == window_size,
            w@.frame_count == 0,
            w@.dtw_skip == DTW_SKIP,
            w@.downsample == DOWNSAMPLE,
    {
        RecognitionWindow {
            buffer: FrameBuffer::new(buffer_size),
            active: false,
            window_size,
            frame_count: 0,
            dtw_skip: DTW_SKIP,
            downsample: DOWNSAMPLE,
        }
    }

    /// Switch recognition on.
    pub fn start(&mut self)
        ensures
            final(self)@ == (WindowModel { active: true, ..old(self)@ }),
    {
        self.active = true;
    }

    /// Switch recognition off.
    pub fn stop(&mut self)
        ensures
            final(self)@ == (WindowModel { active: false, ..old(self)@ }),
    {
        self.active = false;
    }

    /// Whether recognition is on.
    pub fn is_active(&self) -> (r: bool)
        ensures
            r == self@.active,
    {
        self.active
    }

    /// The matching window's length in frames.
    pub fn window_size(&self) -> (r: usize)
        ensures
            r == self@.window_size,
    {
        self.window_size
    }

    /// Set the matching window's length.
    pub fn set_window_size(&mut self, window_size: usize)
        ensures
            final(self)@ == (WindowModel { window_size: window_size as nat, ..old(self)@ }),
    {
        self.window_size = window_size;
    }

    /// Frames buffered.
    pub fn buffer_len(&self) -> (r: usize)
        ensures
            r == self@.frames.len(),
    {
        self.buffer.len()
    }

    /// Frames taken so far (wrapping past `usize::MAX`).
    pub fn frame_count(&self) -> (r: usize)
        ensures
            r == self@.frame_count,
    {
        self.frame_count
    }

    /// Empty the buffer (after a hit, so that stale motion cannot fire again).
    pub fn clear_buffer(&mut self)
        ensures
            final(self)@ == (WindowModel { frames: Seq::<Vec<T>>::empty(), ..old(self)@ }),
    {
        self.buffer.clear();
    }

    /// What a hit at `now` does to the frame side of the recognizer: the global cooldown
    /// starts (`last_any_hit`, the time any gesture last fired, becomes `now`) and the
    /// buffer is emptied, so that stale motion cannot fire again before the window refills.
    pub fn after_hit(&mut self, last_any_hit: &mut Option<u64>, now: u64)
        ensures
            *final(last_any_hit) == Some(now),
            final(self)@ == (WindowModel { frames: Seq::<Vec<T>>::empty(), ..old(self)@ }),
    {
        *last_any_hit = Some(now);
        self.buffer.clear();
    }

    /// Take one frame: drop it if its dimensions differ from the buffered frames', else
    /// buffer and count it, and say whether this frame starts a recognition cycle, and on
    /// which window.
    pub fn take_frame(&mut self, frame: Vec<T>) -> (r: FrameOutcome<T>)
        ensures
            !fits(old(self)@.frames, frame) ==> r is Rejected && final(self)@ == old(self)@,
            final(self)@ == after_take(old(self)@, frame),
            (r is Match) == take_matches(old(self)@, frame),
            fits(old(self)@.frames, frame) ==> {
                let w = final(self)@;
                &&& w == (WindowModel {
                    frames: after_push(old(self)@.frames, old(self)@.capacity, frame),
                    frame_count: next_count(old(self)@.frame_count),
                    ..old(self)@
                })
                &&& (!w.active || w.window_size == 0 || w.frames.len() < w.window_size) ==> r is Buffered
                &&& (w.active && w.window_size > 0 && w.frames.len() >= w.window_size
                    && !is_match_cycle(w)) ==> r is Skipped
                &&& is_match_cycle(w) ==> (r matches FrameOutcome::Match(win) && {
                    let start = (w.frames.len() - w.window_size) as int;
                    let step = effective_step(w.downsample as usize);
                    &&& win@.len() == div_ceil(w.window_size, step)
                    &&& forall|k: int|
                        0 <= k < win@.len() ==> frame_cloned(
                            w.frames[start + k * step],
                            #[trigger] win@[k],
                        )
                })
            },
    {
        match self.buffer.frame_dimensions() {
            Some(expected) => {
                if frame.len() != expected {
                    return FrameOutcome::Rejected;
                }
            },
            None => {},
        }
        self.buffer.push(frame);
        self.frame_count = if self.frame_count < usize::MAX {
            self.frame_count + 1
        } else {
            0
        };
        if !self.active {
            return FrameOutcome::Buffered;
        }
        if self.window_size == 0 || self.buffer.len() < self.window_size {
            return FrameOutcome::Buffered;
        }
        if self.dtw_skip == 0 || self.frame_count % self.dtw_skip != 0 {
            return FrameOutcome::Skipped;
        }
        FrameOutcome::Match(self.buffer.window(self.window_size, self.downsample))
    }
}

} // verus!
