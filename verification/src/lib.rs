//! Throughput measurement for a publish/subscribe link.
//!
//! One side floods fixed-size payloads as fast as the transport allows; the
//! other receives them and computes messages-per-second over fixed-size
//! windows of `number` messages, repeating for `samples` windows and, in
//! callback mode, reporting an arithmetic mean at the end.
//!
//! This crate holds the verified core: the deterministic payload builder,
//! the windowing state machine that counts messages and closes windows, the
//! throughput and mean arithmetic (in integer micro-units of messages per
//! second, so that every digit printed is pinned by a contract), and the
//! byte-exact rendering of the output lines. Session establishment, transport
//! configuration and the delivery loops are left to the surrounding binary.

pub mod drive;
pub mod output;
pub mod payload;
pub mod sampler;
pub mod stats;
