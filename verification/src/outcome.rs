use vstd::prelude::*;

verus! {

/// What the kernel call returns when it fails. Every other value it returns is
/// the number of a descriptor that it has just allocated in the calling
/// process.
pub const RAW_FAILURE: i32 = -1;

/// The kernel refused the transfer and allocated nothing.
///
/// The reason is still in the operating-system error state of the calling
/// thread. It has to be fetched from there at once, before another call on
/// that thread overwrites it, and handed to the caller as it is.
#[derive(Clone, Copy, PartialEq, Eq, Structural, Debug)]
pub struct PendingOsError;

/// The meaning of a raw result: the failure value stands for a pending
/// operating-system error, anything else is the new descriptor itself.
pub open spec fn raw_outcome(raw: i32) -> Result<i32, PendingOsError> {
    if raw == RAW_FAILURE {
        Err(PendingOsError)
    } else {
        Ok(raw)
    }
}

/// Tells a failed kernel call from a served one.
///
/// On `Ok` the caller takes ownership of the descriptor, which refers to the
/// same file description as the one in the target process, and has to close
/// it exactly once. On `Err` there is no descriptor to own. The kernel returns
/// nothing below the failure value, so a descriptor that comes out of a real
/// call is never negative.
pub fn descriptor_from_raw(raw: i32) -> (outcome: Result<i32, PendingOsError>)
    ensures
        outcome == raw_outcome(raw),
        outcome is Err <==> raw == RAW_FAILURE,
        outcome is Ok ==> outcome->Ok_0 == raw,
        raw >= RAW_FAILURE && outcome is Ok ==> outcome->Ok_0 >= 0,
{
    if raw == RAW_FAILURE {
        Err(PendingOsError)
    } else {
        Ok(raw)
    }
}

} // verus!
