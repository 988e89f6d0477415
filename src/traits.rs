//! Small argument traits.

use vstd::prelude::*;
use crate::sealed;

verus! {

/// Converts into a process ID. Implemented for `u32`.
pub trait IntoProcessId {
    fn into_process_id(self) -> u32;
}

impl IntoProcessId for u32 {
    fn into_process_id(self) -> u32 {
        self
    }
}

/// Placeholder for parameters that the platform reserves. Implemented for `()` only.
pub trait Reserved: sealed::Reserved {

}

impl Reserved for () {

}

} // verus!
