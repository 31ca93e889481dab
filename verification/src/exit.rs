//! Exit statuses.

use vstd::prelude::*;

verus! {

/// Nothing is wrong.
pub const EXIT_SUCCESS: i32 = 0;

/// Something was found.
pub const EXIT_VULNERABLE: i32 = 1;

/// The command could not be carried out.
pub const EXIT_ERROR: i32 = 2;

/// The advisory database is too old.
pub const EXIT_STALE: i32 = 3;

} // verus!
