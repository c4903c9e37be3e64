//! Decision machines that drive a buffer-oriented TLS engine over an
//! asynchronous, completion-based transport.
//!
//! The engine never performs I/O itself: each call completes or asks to be
//! called again once input has been fed or output drained. Each machine here
//! turns one such outcome into the next thing the caller must do (call the
//! engine again, flush or fill the transport buffer, finish, fail, or close
//! the transport), so that the loop around the awaits holds no decisions.
pub mod signal;
pub mod retry;
pub mod transfer;
pub mod shutdown;

pub use signal::{Action, Event, ShutdownSignal, Signal};
pub use retry::RetryDriver;
pub use transfer::{FlushDriver, ReadDriver, WriteDriver};
pub use shutdown::{ClosePhase, ShutdownDriver};
