//! Decision logic of a streaming file download: the redirect rule, the clamped
//! progress counter, the messages shown to the operator, and the state machine
//! that turns transport and file-system events into the next thing to do.

pub mod display;
pub mod download;
pub mod error;
pub mod progress;
pub mod redirect;
pub mod run;
