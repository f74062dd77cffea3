//! A TCP socket lifecycle as an explicit, non-blocking state machine.
//!
//! The socket here performs no system call. It records where a socket stands in
//! its lifecycle, decides whether an operation is legal there, and says what the
//! socket becomes once the platform has reported how a pending operation went.
//! Whoever owns the platform socket carries out the work and hands the outcome
//! back to `finish_bind`, `finish_connect`, `finish_listen` or `accept`.

pub mod address;
pub mod error;
pub mod network;
pub mod model;
pub mod tcp;
pub mod blocking;
pub mod states;
pub mod lifecycle;
