//! Session-lifecycle and frame-scheduling core of an immersive-rendering
//! subsystem.
//!
//! The crate tracks one active XR session: the negotiated render
//! configuration (with its two-slot commit protocol), the queue of per-frame
//! animation callbacks, and the gating of reference-space requests. The
//! embedding drives the frame loop and performs all I/O; this library holds
//! the decisions and proves their contracts.

use vstd::prelude::*;

pub mod reference_space;
pub mod registry;
pub mod render_state;
pub mod session;

verus! {

/// The failures the session core reports.
///
/// `InvalidState` marks an operation forbidden by the session's current
/// state or mode; `NotSupported` marks a capability this tier does not
/// implement, delivered through the same completion path as success.
#[derive(Clone, Copy, PartialEq, Eq, Structural, Debug)]
pub enum Error {
    InvalidState,
    NotSupported,
}

} // verus!
