//! What can go wrong around the queue.

use vstd::prelude::*;

verus! {

/// The failures that the queue and its sessions report.
#[derive(Clone, Copy, Debug, PartialEq, Eq, Structural)]
pub enum Error {
    /// No title could be found for a URL.
    ResolutionFailed,
    /// A resolved track could not be started.
    PlaybackStartFailed,
    /// The session has no voice connection to play into.
    ConnectionUnavailable,
}

} // verus!
