//! Error text for failures that only need to be shown.
use vstd::prelude::*;
use vstd::string::to_string_from_display_ensures;

verus! {

/// The displayed text of `e`, as for a lock that could not be taken.
pub fn lock_err<T: std::fmt::Display>(e: T) -> (r: String)
    ensures
        to_string_from_display_ensures::<T>(&e, r),
{
    e.to_string()
}

} // verus!
