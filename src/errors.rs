//! The five error categories that the core reports to its callers.
use vstd::prelude::*;

verus! {

/// A failure in talking to a device, or a command that the device's protocol refuses.
#[derive(Debug, Clone, PartialEq, Eq)]
pub struct ButtplugDeviceError {
    pub message: String,
}

/// A malformed or unexpected message.
#[derive(Debug, Clone, PartialEq, Eq)]
pub struct ButtplugMessageError {
    pub message: String,
}

/// A client that missed its ping deadline.
#[derive(Debug, Clone, PartialEq, Eq)]
pub struct ButtplugPingError {
    pub message: String,
}

/// A failure while client and server agree on a session.
#[derive(Debug, Clone, PartialEq, Eq)]
pub struct ButtplugHandshakeError {
    pub message: String,
}

/// Anything that fits none of the other categories.
#[derive(Debug, Clone, PartialEq, Eq)]
pub struct ButtplugUnknownError {
    pub message: String,
}

impl ButtplugDeviceError {
    pub fn new(message: &str) -> (r: Self)
        ensures
            r.message@ == message@,
    {
        ButtplugDeviceError { message: message.to_owned() }
    }
}

impl ButtplugMessageError {
    pub fn new(message: &str) -> (r: Self)
        ensures
            r.message@ == message@,
    {
        ButtplugMessageError { message: message.to_owned() }
    }
}

impl ButtplugPingError {
    pub fn new(message: &str) -> (r: Self)
        ensures
            r.message@ == message@,
    {
        ButtplugPingError { message: message.to_owned() }
    }
}

impl ButtplugHandshakeError {
    pub fn new(message: &str) -> (r: Self)
        ensures
            r.message@ == message@,
    {
        ButtplugHandshakeError { message: message.to_owned() }
    }
}

impl ButtplugUnknownError {
    pub fn new(message: &str) -> (r: Self)
        ensures
            r.message@ == message@,
    {
        ButtplugUnknownError { message: message.to_owned() }
    }
}

/// The closed error taxonomy: one variant per category.
#[derive(Debug, Clone, PartialEq, Eq)]
pub enum ButtplugError {
    ButtplugDeviceError(ButtplugDeviceError),
    ButtplugMessageError(ButtplugMessageError),
    ButtplugPingError(ButtplugPingError),
    ButtplugHandshakeError(ButtplugHandshakeError),
    ButtplugUnknownError(ButtplugUnknownError),
}

impl ButtplugError {
    /// The human-readable text that the error carries, whatever its category.
    pub open spec fn spec_message(&self) -> String {
        match self {
            ButtplugError::ButtplugDeviceError(e) => e.message,
            ButtplugError::ButtplugMessageError(e) => e.message,
            ButtplugError::ButtplugPingError(e) => e.message,
            ButtplugError::ButtplugHandshakeError(e) => e.message,
            ButtplugError::ButtplugUnknownError(e) => e.message,
        }
    }

    /// Returns a copy of the error's text.
    pub fn message(&self) -> (r: String)
        ensures
            r == self.spec_message(),
    {
        match self {
            ButtplugError::ButtplugDeviceError(e) => e.message.clone(),
            ButtplugError::ButtplugMessageError(e) => e.message.clone(),
            ButtplugError::ButtplugPingError(e) => e.message.clone(),
            ButtplugError::ButtplugHandshakeError(e) => e.message.clone(),
            ButtplugError::ButtplugUnknownError(e) => e.message.clone(),
        }
    }
}

} // verus!
