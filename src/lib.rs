//! A deferred-notification scheduler: callers register a message for a local
//! point in time, the message is delivered once that time has come, unless it
//! was cancelled first.

pub mod clock;
pub mod registry;
pub mod scheduler;

