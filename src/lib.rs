//! Receiver side of the VBAN audio-over-UDP protocol: a datagram decoder, the
//! session state machine that drives an audio output, and the write recovery
//! policy of that output.

pub mod wire;
pub mod session;
pub mod sink;
