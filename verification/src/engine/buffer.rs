//! Frame buffer for storing incoming frames with their arrival times, and a
//! fixed-duration recording session.
//!
//! Times are millisecond readings of a monotonic clock supplied by the caller.

use vstd::prelude::*;
use crate::engine::recognizer::{frame_cloned, after_push};
use crate::engine::sequence::{div_ceil, effective_step, lemma_index_below};

verus! {

/// A frame of data with the time it arrived.
#[derive(Debug)]
pub struct TimestampedFrame<T> {
    pub data: Vec<T>,
    pub timestamp: u64,
}

/// Clone one frame's data.
fn clone_data<T: Clone>(f: &TimestampedFrame<T>) -> (r: Vec<T>)
    ensures
        frame_cloned(f.data, r),
{
    f.data.clone()
}

/// Circular buffer of the most recent frames (at most `max_frames`, and always the last
/// one pushed), oldest first.
pub struct FrameBuffer<T> {
    frames: std::collections::VecDeque<TimestampedFrame<T>>,
    max_frames: usize,
}

impl<T> View for FrameBuffer<T> {
    type V = Seq<TimestampedFrame<T>>;

    closed spec fn view(&self) -> Seq<TimestampedFrame<T>> {
        self.frames@
    }
}

/// Frames that arrived at or after `cutoff`.
pub open spec fn arrived_since<T>(cutoff: u64) -> spec_fn(TimestampedFrame<T>) -> bool {
    |f: TimestampedFrame<T>| f.timestamp >= cutoff
}

/// The first index `downsampled` looks at: enough frames back to cover `count` steps.
pub open spec fn downsample_start(len: nat, count: nat, step: nat) -> nat {
    if len >= count * step { (len - count * step) as nat } else { 0 }
}

impl<T: Clone> FrameBuffer<T> {
    /// The number of frames the buffer was made to keep.
    pub closed spec fn capacity(&self) -> nat {
        self.max_frames as nat
    }

    /// An empty buffer keeping at most `max_frames` frames.
    pub fn new(max_frames: usize) -> (b: Self)
        ensures
            b@ == Seq::<TimestampedFrame<T>>::empty(),
            b.capacity() == max_frames,
    {
        FrameBuffer { frames: std::collections::VecDeque::new(), max_frames }
    }

    /// Add a frame that arrived at `now`; the oldest frame leaves when the buffer is full.
    pub fn push(&mut self, frame: Vec<T>, now: u64)
        ensures
            final(self)@ == after_push(old(self)@, old(self).capacity(), TimestampedFrame { data: frame, timestamp: now }),
            final(self).capacity() == old(self).capacity(),
    {
        if self.frames.len() >= self.max_frames {
            let _ = self.frames.pop_front();
        }
        self.frames.push_back(TimestampedFrame { data: frame, timestamp: now });
    }

    /// Number of frames held.
    pub fn len(&self) -> (r: usize)
        ensures
            r == self@.len(),
    {
        self.frames.len()
    }

    /// True when no frame is held.
    pub fn is_empty(&self) -> (r: bool)
        ensures
            r == (self@.len() == 0),
    {
        self.frames.len() == 0
    }

    /// Remove every frame.
    pub fn clear(&mut self)
        ensures
            final(self)@ == Seq::<TimestampedFrame<T>>::empty(),
            final(self).capacity() == old(self).capacity(),
    {
        self.frames.clear();
    }

    /// Copies of the frames from index `start` on, oldest first.
    fn frames_from(&self, start: usize) -> (r: Vec<Vec<T>>)
        requires
            start <= self@.len(),
        ensures
            r@.len() == self@.len() - start,
            forall|k: int| 0 <= k < r@.len() ==> frame_cloned(self@[start + k].data, #[trigger] r@[k]),
    {
        let len = self.frames.len();
        let mut out: Vec<Vec<T>> = Vec::new();
        let mut i = start;
        while i < len
            invariant
                len == self@.len(),
                start <= i <= len,
                out@.len() == i - start,
                forall|k: int|
                    0 <= k < out@.len() ==> frame_cloned(self@[start + k].data, #[trigger] out@[k]),
            decreases len - i,
        {
            out.push(clone_data(&self.frames[i]));
            i = i + 1;
        }
        out
    }

    /// The most recent `count` frames, oldest first (all of them when fewer are held).
    pub fn recent_frames(&self, count: usize) -> (r: Vec<Vec<T>>)
        ensures
            ({
                let start = if self@.len() >= count { self@.len() - count } else { 0 };
                &&& r@.len() == self@.len() - start
                &&& forall|k: int|
                    0 <= k < r@.len() ==> frame_cloned(self@[start + k].data, #[trigger] r@[k])
            }),
    {
        let len = self.frames.len();
        let start = if len >= count { len - count } else { 0 };
        self.frames_from(start)
    }

    /// Copies of all frames, oldest first.
    pub fn all_frames(&self) -> (r: Vec<Vec<T>>)
        ensures
            r@.len() == self@.len(),
            forall|k: int| 0 <= k < r@.len() ==> frame_cloned(self@[k].data, #[trigger] r@[k]),
    {
        self.frames_from(0)
    }

    /// Every `step`-th frame (every frame for a step of zero or one) over the last
    /// `count * step` frames, at most `count` of them, oldest first.
    pub fn downsampled(&self, count: usize, step: usize) -> (r: Vec<Vec<T>>)
        requires
            count * effective_step(step) <= usize::MAX,
        ensures
            ({
                let s = effective_step(step);
                let start = downsample_start(self@.len(), count as nat, s);
                &&& r@.len() == div_ceil((self@.len() - start) as nat, s)
                &&& r@.len() <= count
                &&& forall|k: int|
                    0 <= k < r@.len() ==> frame_cloned(self@[start + k * s].data, #[trigger] r@[k])
            }),
    {
        let step: usize = if step <= 1 { 1 } else { step };
        let len = self.frames.len();
        let span = count * step;
        let start = if len >= span { len - span } else { 0 };
        let avail = len - start;
        let n: usize = if avail % step == 0 {
            avail / step
        } else {
            assert(avail / step < usize::MAX) by (nonlinear_arith)
                requires
                    step >= 2,
                    avail <= usize::MAX,
            ;
            avail / step + 1
        };
        proof {
            lemma_ceil_at_most(avail as nat, step as nat, count as nat);
        }
        let mut out: Vec<Vec<T>> = Vec::new();
        let mut k: usize = 0;
        while k < n
            invariant
                step == effective_step(step),
                step >= 1,
                len == self@.len(),
                start == downsample_start(len as nat, count as nat, step as nat),
                avail == len - start,
                n == div_ceil(avail as nat, step as nat),
                k <= n,
                out@.len() == k,
                forall|j: int|
                    0 <= j < out@.len() ==> frame_cloned(self@[start + j * step].data, #[trigger] out@[j]),
            decreases n - k,
        {
            proof {
                lemma_index_below(avail as nat, step as nat, k as nat);
            }
            let idx = start + k * step;
            out.push(clone_data(&self.frames[idx]));
            k = k + 1;
        }
        out
    }

    /// Copies of the frames that arrived within the last `duration_ms` before `now`,
    /// oldest first.
    pub fn frames_since(&self, duration_ms: u64, now: u64) -> (r: Vec<Vec<T>>)
        ensures
            ({
                let cutoff = if now >= duration_ms { (now - duration_ms) as u64 } else { 0u64 };
                let kept = self@.filter(arrived_since::<T>(cutoff));
                &&& r@.len() == kept.len()
                &&& forall|k: int| 0 <= k < r@.len() ==> frame_cloned(kept[k].data, #[trigger] r@[k])
            }),
    {
        let cutoff = if now >= duration_ms { now - duration_ms } else { 0 };
        let ghost p = arrived_since::<T>(cutoff);
        let len = self.frames.len();
        let mut out: Vec<Vec<T>> = Vec::new();
        let mut i: usize = 0;
        while i < len
            invariant
                len == self@.len(),
                i <= len,
                p == arrived_since::<T>(cutoff),
                out@.len() == self@.take(i as int).filter(p).len(),
                forall|k: int|
                    0 <= k < out@.len() ==> frame_cloned(
                        self@.take(i as int).filter(p)[k].data,
                        #[trigger] out@[k],
                    ),
            decreases len - i,
        {
            proof {
                reveal_with_fuel(Seq::<_>::filter, 1);
                assert(self@.take(i + 1).drop_last() =~= self@.take(i as int));
                assert(self@.take(i + 1).last() == self@[i as int]);
            }
            if self.frames[i].timestamp >= cutoff {
                out.push(clone_data(&self.frames[i]));
            }
            i = i + 1;
        }
        assert(self@.take(len as int) =~= self@);
        out
    }

    /// Arrival time of the most recent frame.
    pub fn last_frame_time(&self) -> (r: Option<u64>)
        ensures
            r == (if self@.len() == 0 { None } else { Some(self@.last().timestamp) }),
    {
        let n = self.frames.len();
        if n == 0 {
            None
        } else {
            Some(self.frames[n - 1].timestamp)
        }
    }

    /// Time from the oldest to the newest frame; None with fewer than two frames.
    pub fn duration(&self) -> (r: Option<u64>)
        ensures
            r == (if self@.len() < 2 {
                None
            } else if self@.last().timestamp >= self@[0].timestamp {
                Some((self@.last().timestamp - self@[0].timestamp) as u64)
            } else {
                Some(0u64)
            }),
    {
        let n = self.frames.len();
        if n < 2 {
            return None;
        }
        let oldest = self.frames[0].timestamp;
        let newest = self.frames[n - 1].timestamp;
        if newest >= oldest {
            Some(newest - oldest)
        } else {
            Some(0)
        }
    }
}

/// The ceiling of `avail / step` is at most `count` when `avail <= count * step`.
proof fn lemma_ceil_at_most(avail: nat, step: nat, count: nat)
    requires
        step >= 1,
        avail <= count * step,
    ensures
        div_ceil(avail, step) <= count,
{
    let q = avail / step;
    let r = avail % step;
    assert(avail == q * step + r && 0 <= r < step) by (nonlinear_arith)
        requires
            step >= 1,
            q == avail / step,
            r == avail % step,
    ;
    if q >= count && r > 0 {
        assert(q * step >= count * step) by (nonlinear_arith)
            requires
                q >= count,
                step >= 1,
        ;
        assert(false);
    }
    if q > count {
        assert(q * step >= count * step + step) by (nonlinear_arith)
            requires
                q >= count + 1,
                step >= 1,
        ;
        assert(false);
    }
}

/// Recording session that captures frames until a fixed duration has passed.
pub struct RecordingSession<F> {
    frames: Vec<F>,
    start_time: u64,
    target_duration_ms: u64,
    completed: bool,
}

/// What a recording session holds.
pub struct RecordingModel<F> {
    pub frames: Seq<F>,
    pub start_time: u64,
    pub target_duration_ms: u64,
    pub completed: bool,
}

impl<F> View for RecordingSession<F> {
    type V = RecordingModel<F>;

    closed spec fn view(&self) -> RecordingModel<F> {
        RecordingModel {
            frames: self.frames@,
            start_time: self.start_time,
            target_duration_ms: self.target_duration_ms,
            completed: self.completed,
        }
    }
}

impl<F> RecordingModel<F> {
    /// Milliseconds since the recording started (zero for readings before the start).
    pub open spec fn elapsed(self, now: u64) -> nat {
        if now >= self.start_time { (now - self.start_time) as nat } else { 0 }
    }
}

/// A recording's time runs from its start, whatever the clock read then: at a reading
/// `now` at or after the start, `now - start_time` milliseconds have passed and
/// `start_time + target_duration_ms - now` remain (none once the target is reached), and a
/// frame arriving then completes the recording exactly when `now` is at or past
/// `start_time + target_duration_ms`. Before the start, no time has passed.
pub proof fn recording_time_runs_from_its_start<F>(m: RecordingModel<F>, now: u64)
    ensures
        now >= m.start_time ==> m.elapsed(now) + m.start_time == now,
        now < m.start_time ==> m.elapsed(now) == 0,
        now >= m.start_time ==> (m.elapsed(now) >= m.target_duration_ms <==> now >= m.start_time
            + m.target_duration_ms),
        now >= m.start_time && now < m.start_time + m.target_duration_ms ==> m.target_duration_ms
            - m.elapsed(now) == m.start_time + m.target_duration_ms - now,
{
}

impl<F> RecordingSession<F> {
    /// Start recording at `now` for `duration_ms` milliseconds.
    pub fn new(duration_ms: u64, now: u64) -> (s: Self)
        ensures
            s@ == (RecordingModel::<F> {
                frames: Seq::empty(),
                start_time: now,
                target_duration_ms: duration_ms,
                completed: false,
            }),
    {
        RecordingSession { frames: Vec::new(), start_time: now, target_duration_ms: duration_ms, completed: false }
    }

    /// Milliseconds since the recording started.
    pub fn elapsed_ms(&self, now: u64) -> (r: u64)
        ensures
            r == self@.elapsed(now),
            now >= self@.start_time ==> r == now - self@.start_time,
            now < self@.start_time ==> r == 0,
    {
        if now >= self.start_time {
            now - self.start_time
        } else {
            0
        }
    }

    /// Add a frame captured at `now`; returns true once the recording is complete.
    /// Frames arriving after completion are not kept.
    pub fn add_frame(&mut self, frame: F, now: u64) -> (done: bool)
        ensures
            old(self)@.completed ==> final(self)@ == old(self)@ && done,
            !old(self)@.completed ==> final(self)@ == (RecordingModel {
                frames: old(self)@.frames.push(frame),
                completed: old(self)@.elapsed(now) >= old(self)@.target_duration_ms,
                ..old(self)@
            }) && done == final(self)@.completed,
            !old(self)@.completed ==> (done <==> (now >= old(self)@.start_time && now
                - old(self)@.start_time >= old(self)@.target_duration_ms) || (now
                < old(self)@.start_time && old(self)@.target_duration_ms == 0)),
    {
        if self.completed {
            return true;
        }
        self.frames.push(frame);
        if self.elapsed_ms(now) >= self.target_duration_ms {
            self.completed = true;
        }
        self.completed
    }

    /// True once the target duration has been reached by a captured frame.
    pub fn is_complete(&self) -> (r: bool)
        ensures
            r == self@.completed,
    {
        self.completed
    }

    /// The captured frames (consumes the session).
    pub fn into_frames(self) -> (r: Vec<F>)
        ensures
            r@ == self@.frames,
    {
        self.frames
    }

    /// Number of frames captured so far.
    pub fn frame_count(&self) -> (r: usize)
        ensures
            r == self@.frames.len(),
    {
        self.frames.len()
    }

    /// The recording's target duration in milliseconds.
    pub fn target_duration_ms(&self) -> (r: u64)
        ensures
            r == self@.target_duration_ms,
    {
        self.target_duration_ms
    }

    /// Milliseconds left until the target duration.
    pub fn remaining_ms(&self, now: u64) -> (r: u64)
        ensures
            r == (if self@.elapsed(now) >= self@.target_duration_ms {
                0
            } else {
                (self@.target_duration_ms - self@.elapsed(now)) as nat
            }),
    {
        let elapsed = self.elapsed_ms(now);
        if elapsed >= self.target_duration_ms {
            0
        } else {
            self.target_duration_ms - elapsed
        }
    }
}

} // verus!
