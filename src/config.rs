use vstd::prelude::*;

verus! {

/// Number of syscall identifiers; each task keeps one counter per identifier.
pub const MAX_SYSCALL_NUM: usize = 500;

} // verus!
