//! Command-protocol driver for a 25-series serial NOR flash chip.
//!
//! The crate holds the protocol itself and performs no bus traffic of its
//! own. An engine ([`FlashSpi`] or [`AsyncFlashSpi`]) names the bus
//! transaction to run next, is told what the bus answered, and decides from
//! the status register what follows. Whoever owns the bus runs the
//! transactions and, for the suspending engine, the timed suspensions.

pub mod async_comms;
pub mod channel;
pub mod comms;
pub mod engine;
pub mod error;
pub mod opcode;
pub mod script;
pub mod status;
pub mod trace;

pub use async_comms::AsyncFlashSpi;
pub use channel::Segment;
pub use comms::FlashSpi;
pub use channel::Transaction;
pub use engine::Engine;
pub use engine::Event;
pub use engine::Output;
pub use engine::Step;
pub use error::Error;
pub use opcode::Opcode;
pub use status::Status;
