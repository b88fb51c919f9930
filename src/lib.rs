//! Console logging in quiet mode.
//!
//! The library decides, for each operation of the logging interface, what
//! reaches the console engine: in quiet mode only warnings, errors and the
//! request to stop a loading indicator do; every other operation is dropped.
//! Performing the decided engine call (printing, locking the shared engine)
//! is left to the caller.

pub mod quiet;

pub use quiet::{EngineCall, QuietLogger};
