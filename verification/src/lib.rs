//! A periodic sampling interrupter: a background scheduler that, at a
//! configurable wall-clock interval, signals a statistical profiler that a
//! sample should be taken and that a cooperative interrupt check should trip.
//!
//! The scheduler runs as a single dedicated thread (spawned by the embedding
//! program) that multiplexes a zero-capacity control channel and a periodic
//! ticker. While `Active`, each accepted tick performs the notify step:
//! an atomic increment of the sample counter followed by an atomic set of
//! the interrupt flag, in that order.

pub mod channel;
pub mod scheduler;
pub mod signals;
pub mod state;

pub use scheduler::{interrupter, Interrupter, InterrupterError, SchedulerTask};
pub use signals::SignalPointers;
pub use state::ControlMessage;
