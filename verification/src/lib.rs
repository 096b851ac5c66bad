//! Metadata of Steam game shortcuts: the application id and icon reference
//! held in a `.url` shortcut, the remote address of the icon, and the
//! platform folders in which such shortcuts live.

use vstd::prelude::*;

pub mod decimal;
pub mod paths;
pub mod search;
pub mod shortcut;
pub mod system;

verus! {

/// The sum of two numbers that fits in a `u64`.
pub fn add(left: u64, right: u64) -> (sum: u64)
    requires
        left + right <= u64::MAX,
    ensures
        sum == left + right,
{
    left + right
}

} // verus!
