//! The single flat error type: every failure carries a human-readable message.

use vstd::prelude::*;

verus! {

/// A failure described by a message alone; no structured error codes exist.
#[derive(Debug)]
pub struct Error {
    pub message: String,
}

impl Error {
    /// Wraps a message into an `Error`, keeping its text exactly.
    pub fn new(message: &str) -> (e: Error)
        ensures
            e.message@ == message@,
    {
        Error { message: message.to_owned() }
    }
}

} // verus!
