//! Duplicating a file descriptor out of another process, given a process
//! descriptor and the number of the descriptor inside that process.
//!
//! The kernel call itself is made by whoever embeds this library. The library
//! holds what surrounds the call: the flags that may be passed (`flags`), the
//! argument words that are handed to the kernel (`call`), the meaning of the
//! raw result (`outcome`) and the request through a process handle
//! (`handle`). What holds across these is proved in `laws`.

pub mod call;
pub mod flags;
pub mod handle;
pub mod laws;
pub mod outcome;

pub use call::{get_file_from_pidfd, GetfdCall};
pub use flags::GetfdFlags;
pub use handle::{BorrowedPidFd, PidFdExt};
pub use outcome::{descriptor_from_raw, PendingOsError, RAW_FAILURE};
