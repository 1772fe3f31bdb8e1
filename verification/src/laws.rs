use vstd::prelude::*;
use crate::call::{get_file_from_pidfd, GetfdCall};
use crate::flags::GetfdFlags;
use crate::handle::PidFdExt;

verus! {

/// Constructing the empty configuration is idempotent: whatever two calls of
/// `GetfdFlags::empty` return is one and the same value, and its bit
/// representation is zero.
pub proof fn empty_flags_are_idempotent(first: GetfdFlags, second: GetfdFlags)
    requires
        call_ensures(GetfdFlags::empty, (), first),
        call_ensures(GetfdFlags::empty, (), second),
    ensures
        first == second,
        first.bits() == 0,
        second.bits() == 0,
{
}

/// Asking a handle for a file is the same as asking `get_file_from_pidfd`
/// with the descriptor that the handle holds: the two prepare equal calls,
/// which hand the kernel the same three words.
pub proof fn handle_delegates_to_get_file_from_pidfd<H: PidFdExt>(
    handle: &H,
    target_fd: i32,
    flags: GetfdFlags,
    through_handle: GetfdCall,
    direct: GetfdCall,
)
    requires
        call_ensures(H::get_file, (handle, target_fd, flags), through_handle),
        call_ensures(get_file_from_pidfd, (handle.raw_pidfd(), target_fd, flags), direct),
    ensures
        through_handle == direct,
        through_handle.raw_args() == direct.raw_args(),
{
}

} // verus!
