//! Error taxonomy of the coordination layer.
//!
//! Adapter and pin failures during steady-state operation are logged and
//! surfaced as events, never fatal; queue-send failures are best-effort and
//! dropped; only startup failures abort bootstrap. The taxonomy below only
//! classifies them.

use vstd::prelude::*;
use vstd::string::StringExecFns;

verus! {

/// What went wrong, by class: a radio/peripheral call failed (`Esp`), a pin
/// operation failed after acquisition (`InvalidState`), or a thread spawn or
/// queue send failed (`Unexpected`).
#[derive(Debug, Clone, Copy, PartialEq, Eq)]
pub enum ErrorType {
    Esp,
    InvalidState,
    Unexpected,
}

/// The display label of each error class.
pub open spec fn spec_error_label(t: ErrorType) -> Seq<char> {
    match t {
        ErrorType::Esp => "Esp"@,
        ErrorType::InvalidState => "InvalidState"@,
        ErrorType::Unexpected => "Unexpected"@,
    }
}

impl ErrorType {
    /// This class's display label.
    pub fn label(&self) -> (r: &'static str)
        ensures
            r@ == spec_error_label(*self),
    {
        match self {
            ErrorType::Esp => "Esp",
            ErrorType::InvalidState => "InvalidState",
            ErrorType::Unexpected => "Unexpected",
        }
    }
}

/// An error of the coordination layer: its class and a human-readable message.
#[derive(Debug)]
pub struct Error {
    pub error: ErrorType,
    pub message: String,
}

impl Error {
    /// A failed radio or peripheral call.
    pub fn new_esp(message: &str) -> (r: Error)
        ensures
            r.error is Esp,
            r.message@ == message@,
    {
        Error { error: ErrorType::Esp, message: message.to_owned() }
    }

    /// A pin operation failed after the pin was acquired.
    pub fn new_invalid_state(message: &str) -> (r: Error)
        ensures
            r.error is InvalidState,
            r.message@ == message@,
    {
        Error { error: ErrorType::InvalidState, message: message.to_owned() }
    }

    /// A thread spawn or queue send failed.
    pub fn new_unexpected(message: &str) -> (r: Error)
        ensures
            r.error is Unexpected,
            r.message@ == message@,
    {
        Error { error: ErrorType::Unexpected, message: message.to_owned() }
    }

    /// The display form of the error: its class in brackets, then the
    /// message.
    pub fn describe(&self) -> (r: String)
        ensures
            r@ == "["@ + spec_error_label(self.error) + "] "@ + self.message@,
    {
        let mut out = "[".to_owned();
        out.append(self.error.label());
        out.append("] ");
        out.append(self.message.as_str());
        out
    }
}

} // verus!
