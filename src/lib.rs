//! Message protocol and vendor-protocol dispatch for commanding haptic devices.
pub mod endpoint;
pub mod envelope;
pub mod errors;
pub mod messages;
pub mod accessors;
pub mod protocol;
pub mod lovense;
pub mod scanning;
