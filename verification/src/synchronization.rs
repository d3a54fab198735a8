//! Exclusive access to shared state.
//!
//! The kernel runs on one core and is never preempted, so nothing contends
//! for its state. The lock here therefore holds no flag and never waits: the
//! exclusive borrow of the lock is the lock. Its interface is that of a real
//! mutex, so a kernel for several cores can put one in its place.

use vstd::prelude::*;

pub mod interface;

verus! {

/// A lock for a single core: taking it costs nothing, and the borrow rules
/// keep a second holder out, so it cannot be taken again from inside the
/// closure that holds it.
pub struct NullLock<T> {
    data: T,
}

impl<T> NullLock<T> {
    /// The guarded value.
    pub closed spec fn view(&self) -> T {
        self.data
    }

    /// A lock around `data`.
    pub fn new(data: T) -> (lock: Self)
        ensures
            lock@ == data,
    {
        NullLock { data }
    }
}

impl<T> interface::Mutex for NullLock<T> {
    type Data = T;

    open spec fn data(&self) -> T {
        self@
    }

    fn lock<R, F: FnOnce(&mut T) -> R>(&mut self, f: F) -> (result: R) {
        f(&mut self.data)
    }
}

} // verus!
