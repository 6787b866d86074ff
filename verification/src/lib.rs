//! Client-side window-decoration negotiation for Wayland, with the
//! negotiation core verified.
//!
//! The library models the contract between an application, a decoration
//! engine (libdecor), and a compositor: configuration exchange, commit
//! sequencing, capability negotiation, popup-grab bookkeeping, error
//! routing, and the stack-discipline binding that carries caller state
//! into nested callbacks. The dynamic-loading and FFI glue around the
//! native engine lives in the unverified embedding layer.

use vstd::prelude::*;

pub mod bridge;
pub mod config;
pub mod context;
pub mod edge;
pub mod error;
pub mod flags;
pub mod frame;

pub use crate::bridge::BindingStack;
pub use crate::config::{Configuration, State};
pub use crate::context::{Context, Registry, Request};
pub use crate::edge::ResizeEdge;
pub use crate::error::{Error, ErrorKind};
pub use crate::flags::{Capabilities, Capability, WindowState, WindowStateFlag};
pub use crate::frame::{Frame, FrameIntent, FrameRef, FrameRequest, Phase};

verus! {

/// Whether the decoration engine is available.
///
/// In this build the engine is linked directly rather than discovered at
/// run time, so it is always available; run-time discovery is the
/// embedding layer's concern.
pub fn is_lib_available() -> (r: bool)
    ensures
        r,
{
    true
}

} // verus!
