//! What a panic is allowed to do.
//!
//! A panic reports itself on the console and then stops the core. The report
//! runs code that can panic in turn; such a second panic must not report
//! anything, or the two would never end.

use vstd::prelude::*;

verus! {

/// Records that a panic is in progress and tells whether this one is the
/// first. The first panic goes on to report itself; every later one has to
/// stop the core at once.
pub fn panic_prevent_reenter(panic_in_progress: &mut bool) -> (first: bool)
    ensures
        first == !*old(panic_in_progress),
        *final(panic_in_progress),
{
    if !*panic_in_progress {
        *panic_in_progress = true;
        return true;
    }
    false
}

} // verus!
