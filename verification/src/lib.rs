//! The core of a synchronized network-audio receiver.
//!
//! A server stamps every chunk of audio with the moment at which it is to be
//! heard. This library holds the decisions that make a small device play the
//! chunks at those moments: what the session does with each message of the
//! connection, what the scheduler does with each queued chunk, how loud the
//! output plays, and what goes to the device when the network falls silent.
//! Sockets, threads, the decoder and the device itself stay with the caller,
//! which hands in what it observed and carries out what was decided.

pub mod noise;
pub mod player;
pub mod scheduler;
pub mod session;
pub mod timeval;
pub mod util;
pub mod volume;
pub mod wifi;
