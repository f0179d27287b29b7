//! Groups of NCCL calls.
use crate::calls::DeviceCall;
use vstd::prelude::*;

verus! {

/// An open group: NCCL holds back the calls made since it was started and
/// launches them together when it ends.
///
/// The guard is used up by [`NCCLGroupGuard::end`], so that a group cannot be
/// ended twice. Nothing ends the group but the call that `end` returns: a
/// guard that is dropped without `end` leaves its group open. A host that
/// wants the group to end with the scope calls `end` when the scope is left.
#[derive(Debug)]
#[must_use]
pub struct NCCLGroupGuard {}

impl NCCLGroupGuard {
    /// Opens a group. The call starts it.
    pub fn new() -> (opened: (Self, DeviceCall))
        ensures
            opened.1 == DeviceCall::GroupStart,
    {
        (NCCLGroupGuard {  }, DeviceCall::GroupStart)
    }

    /// Closes the group. The call ends it.
    pub fn end(self) -> (call: DeviceCall)
        ensures
            call == DeviceCall::GroupEnd,
    {
        DeviceCall::GroupEnd
    }
}

} // verus!
