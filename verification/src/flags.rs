use vstd::prelude::*;

verus! {

/// Configuration of a descriptor transfer.
///
/// The kernel defines no flag for the transfer yet and rejects every flags
/// word but zero, so the type has a single value, the empty configuration.
/// Named flags can be added later without touching callers of `empty`.
#[derive(Clone, Copy, PartialEq, Eq, Structural, Debug)]
#[non_exhaustive]
pub struct GetfdFlags;

impl GetfdFlags {
    /// The flags word that stands for this configuration at the kernel
    /// boundary.
    pub open spec fn spec_bits(&self) -> u32 {
        0
    }

    /// The empty configuration, the only one there is.
    pub fn empty() -> (flags: Self)
        ensures
            flags == GetfdFlags,
            flags.spec_bits() == 0,
    {
        GetfdFlags
    }

    /// The flags word handed to the kernel: always zero.
    #[verifier::when_used_as_spec(spec_bits)]
    pub fn bits(&self) -> (word: u32)
        ensures
            word == self.spec_bits(),
            word == 0,
    {
        0
    }
}

} // verus!
