use vstd::prelude::*;
use crate::flags::GetfdFlags;

verus! {

/// One transfer, ready to be handed to the kernel: the descriptor in this
/// process that refers to the target process, the number of the descriptor to
/// duplicate inside that process, and the configuration.
///
/// A call is a one-shot lookup key. It names whatever the target process has
/// open under `target_fd` at the instant the kernel serves it.
#[derive(Clone, Copy, PartialEq, Eq, Structural, Debug)]
pub struct GetfdCall {
    pub pidfd: i32,
    pub target_fd: i32,
    pub flags: GetfdFlags,
}

/// The transfer of `target_fd` out of the process behind `pidfd`.
pub open spec fn getfd_call(pidfd: i32, target_fd: i32, flags: GetfdFlags) -> GetfdCall {
    GetfdCall { pidfd, target_fd, flags }
}

impl GetfdCall {
    /// The three argument words of the kernel call, in the order in which the
    /// kernel takes them.
    pub open spec fn spec_raw_args(&self) -> (i32, i32, u32) {
        (self.pidfd, self.target_fd, self.flags.spec_bits())
    }

    /// The argument words to pass to the kernel. Both descriptors go through
    /// untouched and the flags word is zero, which is what makes the raw call
    /// sound.
    #[verifier::when_used_as_spec(spec_raw_args)]
    pub fn raw_args(&self) -> (words: (i32, i32, u32))
        ensures
            words == self.spec_raw_args(),
            words.0 == self.pidfd,
            words.1 == self.target_fd,
            words.2 == 0,
    {
        (self.pidfd, self.target_fd, self.flags.bits())
    }
}

/// Prepares the duplication of the descriptor `target_fd` of the process
/// behind `pidfd`.
///
/// Nothing is validated here. Whether `pidfd` refers to a process and whether
/// that process has `target_fd` open is for the kernel to say when the call is
/// made.
pub fn get_file_from_pidfd(pidfd: i32, target_fd: i32, flags: GetfdFlags) -> (call: GetfdCall)
    ensures
        call == getfd_call(pidfd, target_fd, flags),
        call.raw_args() == (pidfd, target_fd, 0u32),
{
    GetfdCall { pidfd, target_fd, flags }
}

} // verus!
