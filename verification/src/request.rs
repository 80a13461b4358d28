//! Capture request status.

use vstd::prelude::*;

verus! {

/// Status of a capture request.
#[derive(Debug, Clone, Copy, PartialEq, Eq, Structural)]
pub enum RequestStatus {
    /// The request is ready to be queued.
    Pending,
    /// The request was executed successfully.
    Complete,
    /// The request was cancelled, most likely because capture stopped.
    Cancelled,
}

} // verus!
