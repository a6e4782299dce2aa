//! The workflow states and the number of approvals publication needs.

use vstd::prelude::*;

verus! {

/// How many approvals a pending post needs before it is published.
pub const NEEDED_APPROVALS: u8 = 2;

/// The closed set of workflow states a post can be in.
///
/// The approval counter exists only while a post is pending review and always
/// stays below [`NEEDED_APPROVALS`]: the approval that would reach the
/// threshold publishes the post instead of being counted.
#[derive(Clone, Copy, Debug, PartialEq, Eq, Structural)]
pub enum State {
    /// Editable and unreviewed; the body is not visible.
    Draft,
    /// Submitted and awaiting approvals; the body is not visible yet.
    PendingReview {
        /// Approvals received so far, always below [`NEEDED_APPROVALS`].
        approvals: u8,
    },
    /// Finalized and visible; every trigger is a no-op from here on.
    Published,
}

} // verus!
