//! Errors a decoration context reports.
//!
//! Errors arrive asynchronously from the engine, carrying a discriminant
//! and a human-readable message; they are routed to the registered
//! callback of the context they belong to and never returned from a call.

use vstd::prelude::*;

verus! {

/// Kind of error in a decoration context.
#[derive(Clone, Copy, PartialEq, Eq, Structural, Debug)]
pub enum ErrorKind {
    /// The compositor is incompatible with the decoration engine, most
    /// likely because it offers no toplevel shell.
    CompositorIncompatible,
    /// The frame configuration is invalid, for example a minimum content
    /// size above the maximum.
    InvalidFrameConfiguration,
}

/// Wire encoding of an error kind.
pub open spec fn error_code(k: ErrorKind) -> u32 {
    match k {
        ErrorKind::CompositorIncompatible => 0,
        ErrorKind::InvalidFrameConfiguration => 1,
    }
}

impl ErrorKind {
    /// Decode the native discriminant; fails exactly on values outside
    /// the two defined codes.
    pub fn from_raw(raw: u32) -> (r: Option<ErrorKind>)
        ensures
            raw == 0 ==> r == Some(ErrorKind::CompositorIncompatible),
            raw == 1 ==> r == Some(ErrorKind::InvalidFrameConfiguration),
            raw > 1 ==> r is None,
    {
        match raw {
            0 => Some(ErrorKind::CompositorIncompatible),
            1 => Some(ErrorKind::InvalidFrameConfiguration),
            _ => None,
        }
    }

    /// Encode for the native boundary.
    pub fn to_raw(self) -> (r: u32)
        ensures
            r == error_code(self),
    {
        match self {
            ErrorKind::CompositorIncompatible => 0,
            ErrorKind::InvalidFrameConfiguration => 1,
        }
    }
}

/// An error that has occurred in a decoration context.
#[derive(Clone, Debug)]
pub struct Error {
    /// The engine's human-readable message, kept byte for byte.
    pub message: String,
    /// The discriminant the engine reported.
    pub kind: ErrorKind,
}

impl Error {
    /// Build an error from a decoded discriminant and message.
    pub fn new(kind: ErrorKind, message: String) -> (r: Error)
        ensures
            r.kind == kind,
            r.message@ == message@,
    {
        Error { message, kind }
    }

    /// The corresponding [`ErrorKind`] for this error.
    pub fn kind(&self) -> (r: ErrorKind)
        ensures
            r == self.kind,
    {
        self.kind
    }

    /// The engine's message, exactly as it was reported.
    pub fn message(&self) -> (r: &str)
        ensures
            r@ == self.message@,
    {
        self.message.as_str()
    }
}

} // verus!
