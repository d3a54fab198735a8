//! What every device driver offers to the registry.

use vstd::prelude::*;

verus! {

/// A device driver: it names what hardware it is for and can bring that
/// hardware up.
pub trait DeviceDriver {
    /// The name of the hardware that the driver is compatible with.
    fn compatible(&self) -> &'static str;

    /// Brings the device up. Called once, before the device is used; a
    /// failure comes with a message. A driver with nothing to bring up keeps
    /// this default, which succeeds.
    fn init(&self) -> (outcome: Result<(), &'static str>)
        default_ensures
            outcome is Ok,
    {
        Ok(())
    }
}

/// A shared reference to a driver is a driver: the registry can hold
/// references to drivers that live elsewhere.
impl<'a, T: DeviceDriver + ?Sized> DeviceDriver for &'a T {
    fn compatible(&self) -> (name: &'static str)
        ensures
            call_ensures(T::compatible, (*self,), name),
    {
        (**self).compatible()
    }

    fn init(&self) -> (outcome: Result<(), &'static str>)
        ensures
            call_ensures(T::init, (*self,), outcome),
    {
        (**self).init()
    }
}

} // verus!
