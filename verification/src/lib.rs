//! Core of a live-presentation controller: a single writer advances through
//! an ordered script of lines while any number of passive displays observe
//! the current line through independent, lossy, ordered event feeds.
//!
//! The crate holds the in-memory active-show state machine, the pure
//! navigation engine (clamping and blank-line handling), a bounded
//! multi-subscriber broadcast hub, and the per-client stream session
//! adapter.  Persistence and transport are external collaborators: callers
//! hand the operations plain values fetched from the store and carry the
//! published events onto the wire.

use vstd::prelude::*;

pub mod hub;
pub mod session;
pub mod show;
pub mod nav;
pub mod text;
pub mod types;

verus! {

/// Outcome of a control operation that can be refused.
#[derive(Clone, Copy, Debug, PartialEq, Eq, Structural)]
pub enum ShowError {
    /// The activation target does not exist; state is unchanged.
    NotFound,
    /// Advance was requested while no song is selected.
    NoActiveSong,
    /// The line store could not be reached; the operation may be retried.
    RepositoryUnavailable,
    /// A slow consumer lost messages; informational, never fatal.
    SubscriberOverflow,
}

} // verus!
