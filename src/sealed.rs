//! Traits that only this crate can implement.

use vstd::prelude::*;

verus! {

/// The sealing supertrait of [`Reserved`](crate::Reserved).
pub trait Reserved {

}

impl Reserved for () {

}

} // verus!
