//! Verified bookkeeping for Arcade Learning Environment sessions.
//!
//! The emulator itself runs outside this crate. Everything here works on the
//! plain values the emulator reports (rewards, life counts, screen bytes,
//! encoded states) and decides what a session, a saved state or a batch of
//! sessions looks like afterwards.

pub mod bytes;
pub mod game;
pub mod logger;
pub mod parallel;
pub mod query;
pub mod rom;
pub mod session;
pub mod state;
pub mod step;

pub use game::{GameInfo, Observation, Program};
pub use logger::LoggerMode;
pub use parallel::ParallelAtari;
pub use rom::BundledRom;
pub use session::Ale;
pub use state::{AleState, StateError, StateKind};
pub use step::{StepReport, Transition};
