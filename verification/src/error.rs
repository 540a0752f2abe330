//! The failures that the library reports.

use crate::injector::{symbol_of, Procedure};
use vstd::prelude::*;
use vstd::string::StringExecFns;

verus! {

/// Why an operation on a window or on a target process did not go through.
#[derive(Clone, Copy, Debug, PartialEq, Eq, Structural)]
pub enum Error {
    /// No live process answers to the process id.
    ProcessNotFound,
    /// The caller lacks the rights to open, query or modify the target.
    AccessDenied,
    /// The loaded module does not export the entry point that is named:
    /// the module on disk and this library are of different versions.
    SymbolNotFound(Procedure),
    /// The module could not be loaded into the target.
    InjectionFailed,
    /// A call inside the target could not be started or did not complete.
    RemoteCallFailed,
    /// An attribute of one window could not be read; only that window is
    /// affected.
    AttributeQueryFailed,
}

/// What an error says in words.
pub open spec fn message_of(error: Error) -> Seq<char> {
    match error {
        Error::ProcessNotFound => "no such process"@,
        Error::AccessDenied => "access denied"@,
        Error::SymbolNotFound(procedure) => "Failed to find procedure "@ + symbol_of(procedure),
        Error::InjectionFailed => "the module could not be loaded"@,
        Error::RemoteCallFailed => "the remote call did not complete"@,
        Error::AttributeQueryFailed => "a window attribute could not be read"@,
    }
}

impl Error {
    /// Returns what the error says in words. A missing entry point is
    /// named by the symbol that was looked up.
    pub fn message(&self) -> (text: String)
        ensures
            text@ == message_of(*self),
    {
        match self {
            Error::ProcessNotFound => String::from_str("no such process"),
            Error::AccessDenied => String::from_str("access denied"),
            Error::SymbolNotFound(procedure) => String::from_str("Failed to find procedure ").concat(
                procedure.symbol(),
            ),
            Error::InjectionFailed => String::from_str("the module could not be loaded"),
            Error::RemoteCallFailed => String::from_str("the remote call did not complete"),
            Error::AttributeQueryFailed => String::from_str("a window attribute could not be read"),
        }
    }
}

/// What the operating system reported when a step failed.
#[derive(Clone, Copy, Debug, PartialEq, Eq, Structural)]
pub enum Failure {
    /// The step was refused for want of rights.
    Denied,
    /// The step failed for any other reason: the target is gone, or the
    /// system could not carry the step out.
    Unavailable,
}

} // verus!
