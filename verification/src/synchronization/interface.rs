//! What every lock of the kernel offers.

use vstd::prelude::*;

verus! {

/// A lock around one value. Whoever holds the lock has the value to
/// themselves for the length of one closure.
pub trait Mutex {
    /// The type of the value that the lock guards.
    type Data;

    /// The guarded value.
    spec fn data(&self) -> Self::Data;

    /// Takes the lock, runs `f` on the guarded value and hands back what `f`
    /// returned. The value is changed by `f` and by nothing else.
    fn lock<R, F: FnOnce(&mut Self::Data) -> R>(&mut self, f: F) -> (result: R)
        requires
            forall|data: &mut Self::Data| *data == old(self).data() ==> f.requires((data,)),
        ensures
            exists|data: &mut Self::Data|
                {
                    &&& *data == old(self).data()
                    &&& *final(data) == final(self).data()
                    &&& f.ensures((data,), result)
                },
    ;
}

} // verus!
