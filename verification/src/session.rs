//! The stream session's decisions.
//!
//! A session owns one connection's message loop. For every message that the
//! protocol client hands out, together with what the caller observed when it
//! arrived, the session settles what is to be done: set up the output for a
//! new stream, queue a chunk for the scheduler, change the volume, or queue
//! comfort noise when the network has been silent for too long. The caller
//! performs the action.

use crate::player::DEFAULT_VOLUME;
use crate::timeval::TimeVal;
use vstd::prelude::*;

verus! {

/// Entries that the queue between session and scheduler holds at most.
pub const QUEUE_DEPTH: usize = 36;

/// Samples that the decode buffer must hold for the largest frame of any
/// supported codec.
pub const DECODE_BUFFER_SAMPLES: usize = 4_700;

/// Whole seconds without a queued entry after which comfort noise is due.
pub const KEEP_ALIVE_SECS: u64 = 5;

/// How far ahead of now comfort noise is stamped, in microseconds.
pub const NOISE_LEAD_MICROS: i32 = 2_000;

/// What a queue entry carries.
#[derive(Debug, PartialEq, Eq)]
pub enum Sample {
    /// An encoded chunk, as it came off the wire.
    Data(Vec<u8>),
    /// The marker for comfort noise.
    WhiteNoise,
}

/// A message of the protocol client, reduced to what the session decides on.
#[derive(Debug, PartialEq, Eq)]
pub enum Message {
    /// A new stream begins.
    CodecHeader,
    /// An encoded chunk, to be audible at `audible_at`.
    WireChunk { payload: Vec<u8>, audible_at: TimeVal },
    /// The server sets the volume.
    ServerSettings { volume: u8 },
    /// Nothing arrived in this tick.
    Nothing,
}

/// What the caller saw when the message arrived.
#[derive(Clone, Copy, Debug, PartialEq, Eq, Structural)]
pub struct Observed {
    /// Whether the connection is synchronized with the server's clock.
    pub in_sync: bool,
    /// Whether an output exists.
    pub sink_active: bool,
    /// The caller's monotonic clock, in microseconds.
    pub now_micros: u64,
    /// Server-relative time elapsed since the time base.
    pub elapsed: TimeVal,
}

/// What the caller is to do.
#[derive(Debug, PartialEq, Eq)]
pub enum Action {
    /// Create decoder and output for the new stream, set the output to
    /// `volume`, and switch transmission on. That an output exists already is
    /// fatal.
    StartStream { volume: u8 },
    /// Send the entry to the scheduler, blocking while the queue is full.
    Enqueue { audible_at: TimeVal, sample: Sample },
    /// Set the output to `volume`.
    SetVolume { volume: u8 },
    /// Nothing to do.
    Idle,
}

/// The session's state: the volume that the next output starts with, and the
/// time at which the last entry was queued.
#[derive(Clone, Copy, Debug, PartialEq, Eq, Structural)]
pub struct Session {
    pub start_vol: u8,
    pub last_sample_micros: u64,
}

/// Whole seconds that passed from `since` to `now` on the caller's clock; zero
/// should the clock have gone backwards.
pub open spec fn idle_secs(since: u64, now: u64) -> int {
    if now >= since {
        (now - since) / 1_000_000
    } else {
        0
    }
}

/// The instant that comfort noise is stamped with when `elapsed` has passed:
/// `NOISE_LEAD_MICROS` later, or `None` when that instant cannot be stored.
pub open spec fn noise_audible_at(elapsed: TimeVal) -> Option<TimeVal> {
    let lead = TimeVal { sec: 0, usec: NOISE_LEAD_MICROS };
    if crate::timeval::fits_i32(elapsed.sum_sec(lead)) && crate::timeval::fits_i32(
        elapsed.sum_usec(lead),
    ) {
        Some(TimeVal { sec: elapsed.sum_sec(lead) as i32, usec: elapsed.sum_usec(lead) as i32 })
    } else {
        None
    }
}

impl Session {
    /// Whether comfort noise is due at `seen`: the keep-alive window has
    /// passed without an entry, and the noise can be stamped.
    pub open spec fn noise_is_due(self, seen: Observed) -> bool {
        idle_secs(self.last_sample_micros, seen.now_micros) > KEEP_ALIVE_SECS && noise_audible_at(
            seen.elapsed,
        ) is Some
    }

    /// The action that `msg` calls for.
    pub open spec fn action_for(self, msg: Message, seen: Observed) -> Action {
        match msg {
            Message::CodecHeader => Action::StartStream { volume: self.start_vol },
            Message::WireChunk { payload, audible_at } => if seen.in_sync {
                Action::Enqueue { audible_at, sample: Sample::Data(payload) }
            } else {
                Action::Idle
            },
            Message::ServerSettings { volume } => if seen.sink_active {
                Action::SetVolume { volume }
            } else {
                Action::Idle
            },
            Message::Nothing => if self.noise_is_due(seen) {
                Action::Enqueue {
                    audible_at: noise_audible_at(seen.elapsed)->0,
                    sample: Sample::WhiteNoise,
                }
            } else {
                Action::Idle
            },
        }
    }

    /// The session after `msg`.
    pub open spec fn after(self, msg: Message, seen: Observed) -> Session {
        match msg {
            Message::CodecHeader => self,
            Message::WireChunk { .. } => if seen.in_sync {
                Session { last_sample_micros: seen.now_micros, ..self }
            } else {
                self
            },
            Message::ServerSettings { volume } => Session { start_vol: volume, ..self },
            Message::Nothing => if self.noise_is_due(seen) {
                Session { last_sample_micros: seen.now_micros, ..self }
            } else {
                self
            },
        }
    }

    /// A session that begins at `now_micros` on the caller's clock, with the
    /// default volume pending.
    pub fn new(now_micros: u64) -> (s: Session)
        ensures
            s.start_vol == DEFAULT_VOLUME,
            s.last_sample_micros == now_micros,
    {
        Session { start_vol: DEFAULT_VOLUME, last_sample_micros: now_micros }
    }

    /// Takes one message and settles what the caller is to do.
    ///
    /// A codec header starts a stream at the pending volume. A chunk is
    /// queued while the connection is synchronized, and dropped otherwise.
    /// A volume setting is remembered for the next stream, and applied at
    /// once when an output exists. A tick without a message queues comfort
    /// noise when more than `KEEP_ALIVE_SECS` whole seconds have passed since
    /// the last entry was queued. Queuing an entry, of either kind, restarts
    /// that count.
    pub fn on_message(&mut self, msg: Message, seen: Observed) -> (action: Action)
        ensures
            action == old(self).action_for(msg, seen),
            *final(self) == old(self).after(msg, seen),
    {
        match msg {
            Message::CodecHeader => Action::StartStream { volume: self.start_vol },
            Message::WireChunk { payload, audible_at } => {
                if seen.in_sync {
                    self.last_sample_micros = seen.now_micros;
                    Action::Enqueue { audible_at, sample: Sample::Data(payload) }
                } else {
                    Action::Idle
                }
            },
            Message::ServerSettings { volume } => {
                self.start_vol = volume;
                if seen.sink_active {
                    Action::SetVolume { volume }
                } else {
                    Action::Idle
                }
            },
            Message::Nothing => {
                let idle: u64 = if seen.now_micros >= self.last_sample_micros {
                    (seen.now_micros - self.last_sample_micros) / 1_000_000
                } else {
                    0
                };
                if idle > KEEP_ALIVE_SECS {
                    let lead = TimeVal { sec: 0, usec: NOISE_LEAD_MICROS };
                    match seen.elapsed.checked_add(lead) {
                        Some(audible_at) => {
                            self.last_sample_micros = seen.now_micros;
                            Action::Enqueue { audible_at, sample: Sample::WhiteNoise }
                        },
                        None => Action::Idle,
                    }
                } else {
                    Action::Idle
                }
            },
        }
    }
}

/// Comfort noise can be stamped whenever the elapsed time is in carried form
/// and a second short of the largest that a `TimeVal` holds. The stamp is then
/// carried too, and `NOISE_LEAD_MICROS` after the elapsed time.
pub proof fn lemma_noise_can_be_stamped(elapsed: TimeVal)
    requires
        elapsed.is_carried(),
        elapsed.sec < i32::MAX,
    ensures
        noise_audible_at(elapsed) is Some,
        noise_audible_at(elapsed)->0.is_carried(),
        noise_audible_at(elapsed)->0.micros() == elapsed.micros() + NOISE_LEAD_MICROS,
{
}

/// One silence, one noise. A tick without a message that comes more than
/// `KEEP_ALIVE_SECS` whole seconds after the last entry was queued queues
/// comfort noise, stamped `NOISE_LEAD_MICROS` after the elapsed time, and
/// restarts the count; a tick without a message that follows before another
/// window has passed queues nothing. Left out are only the elapsed times so
/// late that the stamp cannot be stored.
pub proof fn lemma_noise_is_queued_once(s: Session, first: Observed, second: Observed)
    requires
        idle_secs(s.last_sample_micros, first.now_micros) > KEEP_ALIVE_SECS,
        noise_audible_at(first.elapsed) is Some,
        first.now_micros <= second.now_micros,
        second.now_micros - first.now_micros < (KEEP_ALIVE_SECS + 1) * 1_000_000,
    ensures
        s.action_for(Message::Nothing, first) == (Action::Enqueue {
            audible_at: noise_audible_at(first.elapsed)->0,
            sample: Sample::WhiteNoise,
        }),
        noise_audible_at(first.elapsed)->0.micros() == first.elapsed.micros() + NOISE_LEAD_MICROS,
        s.after(Message::Nothing, first) == (Session {
            last_sample_micros: first.now_micros,
            ..s
        }),
        s.after(Message::Nothing, first).action_for(Message::Nothing, second) == Action::Idle,
        s.after(Message::Nothing, first).after(Message::Nothing, second) == s.after(
            Message::Nothing,
            first,
        ),
{
}

} // verus!
