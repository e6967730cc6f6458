//! Two-player chess sessions over a persistent key-value state.
//!
//! The crate is built from three layers:
//! - [`codec`]: a lossless codec between a logical 8x8 board and a packed
//!   256-bit value (four 64-bit words), with a proved round-trip law;
//! - [`engine`]: a thin, trusted adapter around the external rules engine
//!   that validates and applies chess moves;
//! - [`session`]: the game registry and the session state machine, which
//!   enforce turn order, caller authorization and status transitions.

pub mod codec;
pub mod engine;
pub mod session;
