use vstd::prelude::*;
use crate::call::{get_file_from_pidfd, getfd_call, GetfdCall};
use crate::flags::GetfdFlags;

verus! {

/// Anything that stands for a process by holding a process descriptor can ask
/// for a file out of that process.
///
/// An implementation adds nothing of its own: it prepares the very call that
/// `get_file_from_pidfd` prepares for the descriptor it holds.
pub trait PidFdExt {
    /// The process descriptor that the handle holds.
    spec fn raw_pidfd(&self) -> i32;

    /// Prepares the duplication of the descriptor `target_fd` of the process
    /// behind this handle. The handle is only read.
    fn get_file(&self, target_fd: i32, flags: GetfdFlags) -> (call: GetfdCall)
        ensures
            call == getfd_call(self.raw_pidfd(), target_fd, flags),
    ;
}

/// A process descriptor on loan from the handle that owns it.
///
/// The owner keeps the descriptor open, and referring to the same process,
/// for as long as the loan lasts. Dropping the loan closes nothing.
#[derive(Clone, Copy, PartialEq, Eq, Structural, Debug)]
pub struct BorrowedPidFd {
    fd: i32,
}

impl View for BorrowedPidFd {
    type V = i32;

    /// The descriptor number on loan.
    closed spec fn view(&self) -> i32 {
        self.fd
    }
}

impl BorrowedPidFd {
    /// Takes the raw descriptor of a process handle on loan.
    pub fn new(fd: i32) -> (handle: Self)
        ensures
            handle@ == fd,
    {
        BorrowedPidFd { fd }
    }

    /// The raw descriptor on loan.
    pub fn as_raw_fd(&self) -> (fd: i32)
        ensures
            fd == self@,
    {
        self.fd
    }
}

impl PidFdExt for BorrowedPidFd {
    open spec fn raw_pidfd(&self) -> i32 {
        self@
    }

    fn get_file(&self, target_fd: i32, flags: GetfdFlags) -> (call: GetfdCall) {
        get_file_from_pidfd(self.as_raw_fd(), target_fd, flags)
    }
}

} // verus!
