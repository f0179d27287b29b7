//! What can go wrong when communicators are put together.
use vstd::prelude::*;

verus! {

/// An error of the communication core.
#[derive(Debug, PartialEq, Eq)]
pub enum BaguaCoreError {
    /// Communicators that do not work together.
    CommunicatorError(String),
}

} // verus!
