//! The receiving side of the OSC link, as seen from the user interface: the
//! events the network task reports, how they update the connection state, and
//! which incoming messages become skeleton frames.
//!
//! The network task itself (socket, OSC decoding, timeouts) runs outside the
//! library; it reports through a channel whose other end the handle here holds.

use vstd::prelude::*;

use crate::text::same_text;

verus! {

/// Connection status for the OSC receiver
#[derive(Debug, Clone, Copy, PartialEq, Eq, Structural)]
pub enum ConnectionStatus {
    /// Not yet started
    Stopped,
    /// Socket bound, waiting for data
    Listening,
    /// Actively receiving data
    Receiving,
    /// Error state
    Error,
}

/// Events sent from the network task to the interface; `T` is the sample type.
#[derive(Debug)]
pub enum ReceiverEvent<T> {
    /// A frame of data was received (coordinates only, no visibility)
    Frame(Vec<T>),
    /// A frame with per-joint visibility scores (coordinates, visibility)
    FrameWithVisibility(Vec<T>, Vec<T>),
    /// Connection status changed
    StatusChanged(ConnectionStatus),
    /// An error occurred
    Error(String),
}

/// A received frame with optional per-joint visibility scores.
#[derive(Debug)]
pub struct ReceivedFrame<T> {
    /// Coordinate data (e.g., 66 values for 33 joints × XY)
    pub coords: Vec<T>,
    /// Per-joint visibility scores; `None` for frames that carried none.
    pub visibility: Option<Vec<T>>,
}

/// Receiver state as the interface sees it. Times are millisecond readings of
/// the caller's clock.
#[derive(Debug)]
pub struct OscReceiverState {
    pub status: ConnectionStatus,
    pub frame_count: u64,
    pub last_frame_time: Option<u64>,
    pub error_message: Option<String>,
}

impl Default for OscReceiverState {
    /// Stopped, no frame seen, no error.
    fn default() -> (r: Self)
        ensures
            r.status == ConnectionStatus::Stopped,
            r.frame_count == 0,
            r.last_frame_time is None,
            r.error_message is None,
    {
        OscReceiverState {
            status: ConnectionStatus::Stopped,
            frame_count: 0,
            last_frame_time: None,
            error_message: None,
        }
    }
}

/// True for the two events that carry a frame.
pub open spec fn carries_frame<T>(e: ReceiverEvent<T>) -> bool {
    e is Frame || e is FrameWithVisibility
}

/// The frame an event carries, if it carries one.
pub open spec fn frame_of<T>(e: ReceiverEvent<T>) -> Option<ReceivedFrame<T>> {
    match e {
        ReceiverEvent::Frame(data) => Some(ReceivedFrame { coords: data, visibility: None }),
        ReceiverEvent::FrameWithVisibility(coords, vis) => Some(
            ReceivedFrame { coords, visibility: Some(vis) },
        ),
        _ => None,
    }
}

/// `count + 1`, held at `u64::MAX`.
pub open spec fn count_up(count: u64) -> u64 {
    if count < u64::MAX {
        (count + 1) as u64
    } else {
        count
    }
}

/// The state after one event observed at `now`.
pub open spec fn next_state<T>(s: OscReceiverState, e: ReceiverEvent<T>, now: u64) -> OscReceiverState {
    match e {
        ReceiverEvent::Frame(_) => OscReceiverState {
            status: ConnectionStatus::Receiving,
            frame_count: count_up(s.frame_count),
            last_frame_time: Some(now),
            ..s
        },
        ReceiverEvent::FrameWithVisibility(_, _) => OscReceiverState {
            status: ConnectionStatus::Receiving,
            frame_count: count_up(s.frame_count),
            last_frame_time: Some(now),
            ..s
        },
        ReceiverEvent::StatusChanged(status) => OscReceiverState { status, ..s },
        ReceiverEvent::Error(msg) => OscReceiverState {
            status: ConnectionStatus::Error,
            error_message: Some(msg),
            ..s
        },
    }
}

/// The state after a run of events, taken in order.
pub open spec fn state_after<T>(s: OscReceiverState, events: Seq<ReceiverEvent<T>>, now: u64) -> OscReceiverState
    decreases events.len(),
{
    if events.len() == 0 {
        s
    } else {
        next_state(state_after(s, events.drop_last(), now), events.last(), now)
    }
}

/// The frames a run of events carries, in order.
pub open spec fn frames_in<T>(events: Seq<ReceiverEvent<T>>) -> Seq<ReceivedFrame<T>>
    decreases events.len(),
{
    if events.len() == 0 {
        Seq::empty()
    } else {
        let before = frames_in(events.drop_last());
        match frame_of(events.last()) {
            Some(f) => before.push(f),
            None => before,
        }
    }
}

/// How many events of a run carry a frame.
pub open spec fn frame_events_in<T>(events: Seq<ReceiverEvent<T>>) -> nat
    decreases events.len(),
{
    if events.len() == 0 {
        0
    } else {
        frame_events_in(events.drop_last()) + if carries_frame(events.last()) {
            1nat
        } else {
            0nat
        }
    }
}

/// After a run of events the frame count has grown by the number of frame
/// events (held at `u64::MAX`), and exactly those events are handed on.
pub proof fn every_frame_event_is_counted<T>(s: OscReceiverState, events: Seq<ReceiverEvent<T>>, now: u64)
    ensures
        state_after(s, events, now).frame_count == (if s.frame_count + frame_events_in(events)
            <= u64::MAX {
            (s.frame_count + frame_events_in(events)) as u64
        } else {
            u64::MAX
        }),
        frames_in(events).len() == frame_events_in(events),
    decreases events.len(),
{
    if events.len() > 0 {
        every_frame_event_is_counted(s, events.drop_last(), now);
    }
}

/// A run that ends with a frame leaves the receiver `Receiving`, stamped with
/// the time of the poll.
pub proof fn a_frame_means_receiving<T>(s: OscReceiverState, events: Seq<ReceiverEvent<T>>, now: u64)
    requires
        events.len() > 0,
        carries_frame(events.last()),
    ensures
        state_after(s, events, now).status == ConnectionStatus::Receiving,
        state_after(s, events, now).last_frame_time == Some(now),
{
}

impl OscReceiverState {
    /// Update the state for one event observed at `now`; hand on the frame it carries.
    pub fn apply_event<T>(&mut self, event: ReceiverEvent<T>, now: u64) -> (r: Option<ReceivedFrame<T>>)
        ensures
            *final(self) == next_state(*old(self), event, now),
            r == frame_of(event),
    {
        match event {
            ReceiverEvent::Frame(data) => {
                if self.frame_count < u64::MAX {
                    self.frame_count = self.frame_count + 1;
                }
                self.last_frame_time = Some(now);
                self.status = ConnectionStatus::Receiving;
                Some(ReceivedFrame { coords: data, visibility: None })
            },
            ReceiverEvent::FrameWithVisibility(coords, visibility) => {
                if self.frame_count < u64::MAX {
                    self.frame_count = self.frame_count + 1;
                }
                self.last_frame_time = Some(now);
                self.status = ConnectionStatus::Receiving;
                Some(ReceivedFrame { coords, visibility: Some(visibility) })
            },
            ReceiverEvent::StatusChanged(status) => {
                self.status = status;
                None
            },
            ReceiverEvent::Error(msg) => {
                self.status = ConnectionStatus::Error;
                self.error_message = Some(msg);
                None
            },
        }
    }

    /// Update the state for a run of events observed at `now`, in order;
    /// return the frames they carried, in order.
    pub fn apply_events<T>(&mut self, events: Vec<ReceiverEvent<T>>, now: u64) -> (r: Vec<
        ReceivedFrame<T>,
    >)
        ensures
            *final(self) == state_after(*old(self), events@, now),
            r@ == frames_in(events@),
    {
        let ghost all = events@;
        let ghost start = *self;
        let mut frames: Vec<ReceivedFrame<T>> = Vec::new();
        let mut rest = events;
        while rest.len() > 0
            invariant
                rest@.len() <= all.len(),
                rest@ =~= all.subrange(all.len() - rest@.len(), all.len() as int),
                *self == state_after(start, all.subrange(0, all.len() - rest@.len()), now),
                frames@ == frames_in(all.subrange(0, all.len() - rest@.len())),
            decreases rest@.len(),
        {
            let ghost done = all.subrange(0, all.len() - rest@.len());
            let ev = rest.remove(0);
            let ghost next = all.subrange(0, all.len() - rest@.len());
            proof {
                assert(next.drop_last() =~= done);
                assert(next.last() == ev);
            }
            if let Some(f) = self.apply_event(ev, now) {
                frames.push(f);
            }
        }
        proof {
            assert(all.subrange(0, all.len() as int) =~= all);
        }
        frames
    }

    /// Milliseconds from the last frame to `now` (zero if `now` is earlier);
    /// `None` before the first frame.
    pub fn ms_since_last_frame(&self, now: u64) -> (r: Option<u64>)
        ensures
            r == (match self.last_frame_time {
                Some(t) => Some(if now >= t { (now - t) as u64 } else { 0u64 }),
                None => None,
            }),
    {
        match self.last_frame_time {
            Some(t) => Some(now.saturating_sub(t)),
            None => None,
        }
    }
}

#[verifier::external_type_specification]
#[verifier::external_body]
#[verifier::reject_recursive_types(T)]
pub struct ExChannelReceiver<T>(crossbeam_channel::Receiver<T>);

/// Calls `crossbeam_channel::Receiver::try_iter` and collects it: every
/// message waiting in the channel at that moment, in the order sent, without
/// blocking. What is waiting depends on the sending thread, so the contract
/// states nothing of the result.
#[verifier::external_body]
fn take_waiting<T>(rx: &crossbeam_channel::Receiver<T>) -> (r: Vec<T>) {
    rx.try_iter().collect()
}

/// Handle through which the interface follows the OSC receiver.
#[verifier::reject_recursive_types(T)]
pub struct OscReceiverHandle<T> {
    /// Channel on which the network task reports
    pub event_rx: crossbeam_channel::Receiver<ReceiverEvent<T>>,
    /// Current state (updated by polling events)
    pub state: OscReceiverState,
}

impl<T> OscReceiverHandle<T> {
    /// A handle on `event_rx`, in the default (stopped) state.
    pub fn new(event_rx: crossbeam_channel::Receiver<ReceiverEvent<T>>) -> (h: Self)
        ensures
            h.event_rx == event_rx,
            h.state.status == ConnectionStatus::Stopped,
            h.state.frame_count == 0,
            h.state.last_frame_time is None,
            h.state.error_message is None,
    {
        OscReceiverHandle { event_rx, state: OscReceiverState::default() }
    }

    /// Take every event waiting in the channel, update the state for each in
    /// order (as observed at `now`), and return the frames they carried.
    pub fn poll(&mut self, now: u64) -> (r: Vec<ReceivedFrame<T>>)
        ensures
            final(self).event_rx == old(self).event_rx,
            exists|events: Seq<ReceiverEvent<T>>|
                {
                    &&& final(self).state == state_after(old(self).state, events, now)
                    &&& r@ == frames_in(events)
                },
    {
        let events = take_waiting(&self.event_rx);
        let ghost seen = events@;
        let r = self.state.apply_events(events, now);
        assert(self.state == state_after(old(self).state, seen, now) && r@ == frames_in(seen));
        r
    }

    /// Milliseconds since the last frame, as of `now`.
    pub fn ms_since_last_frame(&self, now: u64) -> (r: Option<u64>)
        ensures
            r == (match self.state.last_frame_time {
                Some(t) => Some(if now >= t { (now - t) as u64 } else { 0u64 }),
                None => None,
            }),
    {
        self.state.ms_since_last_frame(now)
    }
}

/// Joints of a MediaPipe pose.
pub const JOINTS: usize = 33;

/// Values per frame without visibility (33 joints × XY).
pub const LEGACY_FRAME_LEN: usize = 66;

/// Values per frame with visibility (33 joints × XY + visibility).
pub const VISIBILITY_FRAME_LEN: usize = 99;

/// The address the receiver always accepts besides the configured one.
pub open spec fn native_address() -> Seq<char> {
    "/ralf/pose"@
}

/// A message is taken when its address is the configured filter or the native
/// RALF address `/ralf/pose`.
pub fn accepts_address(addr: &str, address_filter: &str) -> (r: bool)
    ensures
        r == (addr@ == address_filter@ || addr@ == native_address()),
{
    proof {
        reveal_strlit("/ralf/pose");
    }
    same_text(addr, address_filter) || same_text(addr, "/ralf/pose")
}

/// The event a message with the numeric arguments `values` becomes: none when
/// it carried no number; 99 values are 33 joints of (x, y, visibility) and are
/// split into coordinates and visibility; any other count is a plain frame.
pub fn frame_event<T: Copy>(values: Vec<T>) -> (r: Option<ReceiverEvent<T>>)
    ensures
        values@.len() == 0 ==> r is None,
        values@.len() == VISIBILITY_FRAME_LEN ==> (r matches Some(
            ReceiverEvent::FrameWithVisibility(coords, vis),
        ) && coords@.len() == LEGACY_FRAME_LEN && vis@.len() == JOINTS && (forall|j: int, c: int|
            0 <= j < JOINTS && 0 <= c < 2 ==> #[trigger] coords@[2 * j + c] == values@[3 * j + c])
            && (forall|j: int| 0 <= j < JOINTS ==> #[trigger] vis@[j] == values@[3 * j + 2])),
        values@.len() != 0 && values@.len() != VISIBILITY_FRAME_LEN ==> r == Some(
            ReceiverEvent::Frame(values),
        ),
{
    if values.len() == 0 {
        return None;
    }
    if values.len() != VISIBILITY_FRAME_LEN {
        return Some(ReceiverEvent::Frame(values));
    }
    let mut coords: Vec<T> = Vec::with_capacity(LEGACY_FRAME_LEN);
    let mut visibility: Vec<T> = Vec::with_capacity(JOINTS);
    let mut j: usize = 0;
    while j < JOINTS
        invariant
            values@.len() == VISIBILITY_FRAME_LEN,
            j <= JOINTS,
            coords@.len() == 2 * j,
            visibility@.len() == j,
            forall|k: int, c: int|
                0 <= k < j && 0 <= c < 2 ==> #[trigger] coords@[2 * k + c] == values@[3 * k + c],
            forall|k: int| 0 <= k < j ==> #[trigger] visibility@[k] == values@[3 * k + 2],
        decreases JOINTS - j,
    {
        let x: T = values[3 * j];
        let y: T = values[3 * j + 1];
        let v: T = values[3 * j + 2];
        coords.push(x);
        coords.push(y);
        visibility.push(v);
        proof {
            assert forall|k: int, c: int| 0 <= k < j + 1 && 0 <= c < 2 implies #[trigger] coords@[2
                * k + c] == values@[3 * k + c] by {
                if k < j {
                } else {
                    assert(2 * k + c == 2 * j + c);
                }
            }
        }
        j = j + 1;
    }
    Some(ReceiverEvent::FrameWithVisibility(coords, visibility))
}

} // verus!
