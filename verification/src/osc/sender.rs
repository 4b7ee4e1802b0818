//! The sending side of the OSC link: its status and counters. Opening the
//! socket, encoding and sending happen outside the library, which reports each
//! outcome here.

use vstd::prelude::*;

verus! {

/// Status of the OSC sender
#[derive(Debug, Clone, Copy, PartialEq, Eq, Structural)]
pub enum SenderStatus {
    /// Ready to send
    Ready,
    /// Recently sent a message
    Sent,
    /// Error state
    Error,
}

/// State for the OSC sender (shared with the interface). Times are millisecond
/// readings of the caller's clock.
#[derive(Debug)]
pub struct OscSenderState {
    pub status: SenderStatus,
    pub last_send_time: Option<u64>,
    pub send_count: u64,
    pub error_message: Option<String>,
}

impl Default for OscSenderState {
    /// Ready, nothing sent, no error.
    fn default() -> (r: Self)
        ensures
            r.status == SenderStatus::Ready,
            r.last_send_time is None,
            r.send_count == 0,
            r.error_message is None,
    {
        OscSenderState {
            status: SenderStatus::Ready,
            last_send_time: None,
            send_count: 0,
            error_message: None,
        }
    }
}

impl OscSenderState {
    /// The socket was opened: ready again, the error forgotten.
    pub fn socket_opened(&mut self)
        ensures
            final(self).status == SenderStatus::Ready,
            final(self).error_message is None,
            final(self).send_count == old(self).send_count,
            final(self).last_send_time == old(self).last_send_time,
    {
        self.status = SenderStatus::Ready;
        self.error_message = None;
    }

    /// A message went out at `now`: counted (held at `u64::MAX`), stamped, the error forgotten.
    pub fn message_sent(&mut self, now: u64)
        ensures
            final(self).status == SenderStatus::Sent,
            final(self).last_send_time == Some(now),
            final(self).send_count == (if old(self).send_count < u64::MAX {
                (old(self).send_count + 1) as u64
            } else {
                u64::MAX
            }),
            final(self).error_message is None,
    {
        self.status = SenderStatus::Sent;
        self.last_send_time = Some(now);
        if self.send_count < u64::MAX {
            self.send_count = self.send_count + 1;
        }
        self.error_message = None;
    }

    /// Opening the socket or sending failed with `message`; the count and the
    /// time of the last send stay.
    pub fn failed(&mut self, message: String)
        ensures
            final(self).status == SenderStatus::Error,
            final(self).error_message == Some(message),
            final(self).send_count == old(self).send_count,
            final(self).last_send_time == old(self).last_send_time,
    {
        self.status = SenderStatus::Error;
        self.error_message = Some(message);
    }

    /// Milliseconds from the last send to `now` (zero if `now` is earlier);
    /// `None` before the first send.
    pub fn ms_since_last_send(&self, now: u64) -> (r: Option<u64>)
        ensures
            r == (match self.last_send_time {
                Some(t) => Some(if now >= t { (now - t) as u64 } else { 0u64 }),
                None => None,
            }),
    {
        match self.last_send_time {
            Some(t) => Some(now.saturating_sub(t)),
            None => None,
        }
    }
}

} // verus!
