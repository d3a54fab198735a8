//! Device-driver registry.
//!
//! Board code registers its drivers once, in the order in which they have to
//! come up. The registry then brings them up in that order: each driver's
//! own `init`, then the callback registered with it. The first failure ends
//! the bring-up.

use vstd::prelude::*;
use crate::driver::interface::DeviceDriver;
use crate::synchronization::interface::Mutex;
use crate::synchronization::NullLock;

pub mod interface;

verus! {

/// The number of drivers that the registry has room for. The set of drivers
/// is fixed when the kernel is built; this bounds it.
pub const NUM_DRIVERS: usize = 5;

/// The two steps of bringing one driver up.
#[derive(Clone, Copy, Debug, PartialEq, Eq)]
pub enum InitStage {
    /// The driver's own `init`.
    DriverInit,
    /// The callback registered with the driver.
    PostInitCallback,
}

impl InitStage {
    /// How a diagnostic for a failure at this step begins; the driver's name
    /// and the message of the failure follow it.
    pub fn describe(&self) -> (headline: &'static str)
        ensures
            *self == InitStage::DriverInit ==> headline@ == "Error initializing driver"@,
            *self == InitStage::PostInitCallback ==> headline@
                == "Error during driver post-init callback"@,
    {
        match self {
            InitStage::DriverInit => "Error initializing driver",
            InitStage::PostInitCallback => "Error during driver post-init callback",
        }
    }
}

/// Why the bring-up ended early: which driver failed, at which step, and
/// what it said.
#[derive(Clone, Copy, Debug, PartialEq, Eq)]
pub struct DriverInitError {
    /// The position of the driver in the order of registration, from zero.
    pub index: usize,
    /// The step that failed.
    pub stage: InitStage,
    /// The driver's name, as its `compatible` gave it.
    pub compatible: &'static str,
    /// The message that the failing step returned.
    pub message: &'static str,
}

/// There is only one success without a value.
proof fn lemma_success_is_unit(outcome: Result<(), &'static str>)
    requires
        outcome is Ok,
    ensures
        outcome == Ok::<(), &'static str>(()),
{
    let unit = outcome->Ok_0;
    assert(unit == ());
}

/// A driver together with what has to happen once it is up.
pub struct DeviceDriverDescriptor<D: DeviceDriver, F: Fn() -> Result<(), &'static str>> {
    device_driver: D,
    post_init_callback: Option<F>,
}

impl<D: DeviceDriver, F: Fn() -> Result<(), &'static str>> DeviceDriverDescriptor<D, F> {
    #[verifier::type_invariant]
    spec fn callable(self) -> bool {
        self.post_init_callback is Some ==> call_requires(self.post_init_callback->Some_0, ())
    }

    /// The driver.
    pub closed spec fn driver(&self) -> D {
        self.device_driver
    }

    /// The callback to run after the driver's own `init`, if there is one.
    pub closed spec fn callback(&self) -> Option<F> {
        self.post_init_callback
    }

    /// Whether the driver's `compatible` can return `name`.
    pub open spec fn named(&self, name: &'static str) -> bool {
        call_ensures(D::compatible, (&self.driver(),), name)
    }

    /// Whether the driver's `init` can return `outcome`.
    pub open spec fn init_gives(&self, outcome: Result<(), &'static str>) -> bool {
        call_ensures(D::init, (&self.driver(),), outcome)
    }

    /// Whether there is a callback and it can return `outcome`.
    pub open spec fn callback_gives(&self, outcome: Result<(), &'static str>) -> bool {
        self.callback() is Some && call_ensures(self.callback()->Some_0, (), outcome)
    }

    /// Whether both steps can succeed: the driver's `init`, and the callback
    /// where there is one.
    pub open spec fn brought_up(&self) -> bool {
        &&& self.init_gives(Ok(()))
        &&& self.callback() is Some ==> self.callback_gives(Ok(()))
    }

    /// A descriptor is its driver and its callback, nothing more: two
    /// descriptors with the same driver and the same callback are the same.
    pub proof fn lemma_driver_and_callback_make_descriptor(self, other: Self)
        requires
            self.driver() == other.driver(),
            self.callback() == other.callback(),
        ensures
            self == other,
    {
    }

    /// A descriptor for `device_driver`, with the callback to run once the
    /// driver is up.
    pub fn new(device_driver: D, post_init_callback: Option<F>) -> (descriptor: Self)
        requires
            post_init_callback is Some ==> call_requires(post_init_callback->Some_0, ()),
        ensures
            descriptor.driver() == device_driver,
            descriptor.callback() == post_init_callback,
    {
        DeviceDriverDescriptor { device_driver, post_init_callback }
    }
}

/// Puts `descriptor` into the slot at `next_index` and moves the index on to
/// the slot after it. The two change in one step, so that the table is never
/// seen with a filled slot at or beyond the index.
fn fill_next_slot<D: DeviceDriver, F: Fn() -> Result<(), &'static str>>(
    next_index: &mut usize,
    descriptors: &mut [Option<DeviceDriverDescriptor<D, F>>; NUM_DRIVERS],
    descriptor: DeviceDriverDescriptor<D, F>,
)
    requires
        *old(next_index) < NUM_DRIVERS,
    ensures
        *final(next_index) == *old(next_index) + 1,
        final(descriptors)@ == old(descriptors)@.update(
            *old(next_index) as int,
            Some(descriptor),
        ),
    no_unwind
{
    descriptors[*next_index] = Some(descriptor);
    *next_index += 1;
}

/// The registry's state: the descriptors in the order of their
/// registration, in a table of fixed size.
pub struct DriverManagerInner<D: DeviceDriver, F: Fn() -> Result<(), &'static str>> {
    next_index: usize,
    descriptors: [Option<DeviceDriverDescriptor<D, F>>; NUM_DRIVERS],
}

impl<D: DeviceDriver, F: Fn() -> Result<(), &'static str>> DriverManagerInner<D, F> {
    /// The slots below the index are filled and all others are free.
    #[verifier::type_invariant]
    spec fn filled_up_to_next_index(self) -> bool {
        &&& self.next_index <= NUM_DRIVERS
        &&& forall|i: int|
            0 <= i < NUM_DRIVERS ==> (#[trigger] self.descriptors[i] is Some <==> i
                < self.next_index)
    }

    /// The registered descriptors, first registered first.
    pub closed spec fn view(&self) -> Seq<DeviceDriverDescriptor<D, F>> {
        Seq::new(self.next_index as nat, |i: int| self.descriptors[i]->Some_0)
    }

    /// An empty table.
    pub fn new() -> (inner: Self)
        ensures
            inner@ == Seq::<DeviceDriverDescriptor<D, F>>::empty(),
    {
        let inner = DriverManagerInner {
            next_index: 0,
            descriptors: [None, None, None, None, None],
        };
        assert(inner@ =~= Seq::<DeviceDriverDescriptor<D, F>>::empty());
        inner
    }

    /// Whether `outcome` can come of bringing `descriptors` up in order.
    /// Success means that every driver's `init` succeeded, and its callback
    /// where it has one. A failure names a registered driver: all drivers
    /// before it came up, its name is what its `compatible` gave, and the
    /// message is that of its `init`, or that of its callback after its
    /// `init` had succeeded.
    pub open spec fn bring_up(
        descriptors: Seq<DeviceDriverDescriptor<D, F>>,
        outcome: Result<(), DriverInitError>,
    ) -> bool {
        match outcome {
            Ok(()) => forall|i: int|
                0 <= i < descriptors.len() ==> (#[trigger] descriptors[i]).brought_up(),
            Err(e) => {
                &&& e.index < descriptors.len()
                &&& forall|i: int| 0 <= i < e.index ==> (#[trigger] descriptors[i]).brought_up()
                &&& descriptors[e.index as int].named(e.compatible)
                &&& match e.stage {
                    InitStage::DriverInit => descriptors[e.index as int].init_gives(
                        Err(e.message),
                    ),
                    InitStage::PostInitCallback => {
                        &&& descriptors[e.index as int].init_gives(Ok(()))
                        &&& descriptors[e.index as int].callback_gives(Err(e.message))
                    },
                }
            },
        }
    }

    /// Brings the drivers up in the order of their registration: for each,
    /// its `init` and then, if that succeeded, its callback. The first
    /// failure ends the bring-up: no later step is attempted, and the error
    /// says which driver failed, at which step, and with what message.
    pub fn init_drivers(&self) -> (outcome: Result<(), DriverInitError>)
        ensures
            Self::bring_up(self@, outcome),
            self@.len() <= NUM_DRIVERS,
    {
        proof {
            use_type_invariant(self);
        }
        let mut index: usize = 0;
        while index < self.next_index
            invariant
                index <= self.next_index <= NUM_DRIVERS,
                forall|i: int| 0 <= i < self.next_index ==> #[trigger] self.descriptors[i] is Some,
                forall|i: int| 0 <= i < index ==> (#[trigger] self@[i]).brought_up(),
            decreases self.next_index - index,
        {
            if let Some(descriptor) = &self.descriptors[index] {
                proof {
                    use_type_invariant(descriptor);
                }
                let initialized = descriptor.device_driver.init();
                if let Err(message) = initialized {
                    return Err(
                        DriverInitError {
                            index,
                            stage: InitStage::DriverInit,
                            compatible: descriptor.device_driver.compatible(),
                            message,
                        },
                    );
                }
                proof {
                    lemma_success_is_unit(initialized);
                }
                if let Some(callback) = &descriptor.post_init_callback {
                    let called = callback();
                    if let Err(message) = called {
                        return Err(
                            DriverInitError {
                                index,
                                stage: InitStage::PostInitCallback,
                                compatible: descriptor.device_driver.compatible(),
                                message,
                            },
                        );
                    }
                    proof {
                        lemma_success_is_unit(called);
                    }
                }
            }
            index += 1;
        }
        Ok(())
    }

    /// Whether `result` can come of handing the descriptors to `f` one after
    /// the other, first registered first, where `f` gets what it returned
    /// for the descriptor before, and `init` for the first.
    pub open spec fn visited<A, V: Fn(A, &DeviceDriverDescriptor<D, F>) -> A>(
        f: V,
        descriptors: Seq<DeviceDriverDescriptor<D, F>>,
        init: A,
        result: A,
    ) -> bool
        decreases descriptors.len(),
    {
        if descriptors.len() == 0 {
            result == init
        } else {
            exists|before: A|
                {
                    &&& Self::visited(f, descriptors.drop_last(), init, before)
                    &&& #[trigger] call_ensures(f, (before, &descriptors.last()), result)
                }
        }
    }

    /// [`visited`](Self::visited) taken apart. Without descriptors the result
    /// is what the visit started from. With descriptors it is what one call
    /// of `f` returned: for the last descriptor, on what the visit of those
    /// before it came to. A caller that knows what its `f` returns steps
    /// through a visit with this, one descriptor at a time.
    pub proof fn lemma_visited<A, V: Fn(A, &DeviceDriverDescriptor<D, F>) -> A>(
        f: V,
        descriptors: Seq<DeviceDriverDescriptor<D, F>>,
        init: A,
        result: A,
    )
        ensures
            descriptors.len() == 0 ==> (Self::visited(f, descriptors, init, result)
                <==> result == init),
            descriptors.len() > 0 ==> (Self::visited(f, descriptors, init, result)
                <==> exists|before: A|
                {
                    &&& Self::visited(f, descriptors.drop_last(), init, before)
                    &&& #[trigger] call_ensures(f, (before, &descriptors.last()), result)
                }),
    {
    }

    /// Whether `f` can be handed the descriptors one after the other,
    /// starting from `init`: whatever the calls before have come to, `f`
    /// accepts it together with the next descriptor.
    pub open spec fn visitable<A, V: Fn(A, &DeviceDriverDescriptor<D, F>) -> A>(
        f: V,
        descriptors: Seq<DeviceDriverDescriptor<D, F>>,
        init: A,
    ) -> bool {
        forall|before: A, i: int|
            0 <= i < descriptors.len() && Self::visited(f, descriptors.take(i), init, before)
                ==> #[trigger] call_requires(f, (before, &descriptors[i]))
    }

    /// Calls `f` once for each registered descriptor, in the order of
    /// registration. Each call gets what the call before returned, the first
    /// gets `init`; what the last returned is the result.
    pub fn for_each_descriptor<A, V: Fn(A, &DeviceDriverDescriptor<D, F>) -> A>(
        &self,
        init: A,
        f: V,
    ) -> (result: A)
        requires
            Self::visitable(f, self@, init),
        ensures
            Self::visited(f, self@, init, result),
            self@.len() <= NUM_DRIVERS,
    {
        proof {
            use_type_invariant(self);
        }
        let mut result = init;
        let mut index: usize = 0;
        while index < self.next_index
            invariant
                index <= self.next_index <= NUM_DRIVERS,
                forall|i: int| 0 <= i < self.next_index ==> #[trigger] self.descriptors[i] is Some,
                Self::visitable(f, self@, init),
                Self::visited(f, self@.take(index as int), init, result),
            decreases self.next_index - index,
        {
            if let Some(descriptor) = &self.descriptors[index] {
                let ghost before = result;
                result = f(result, descriptor);
                assert(self@.take(index + 1).drop_last() =~= self@.take(index as int));
                assert(call_ensures(f, (before, &self@.take(index + 1).last()), result));
            }
            index += 1;
        }
        assert(self@.take(index as int) =~= self@);
        result
    }

    /// Whether `result` can come of listing the descriptors to `visitor`,
    /// first registered first: the visitor gets what it returned for the
    /// descriptor before (`init` for the first), the descriptor's number,
    /// counted from one, and a name that the driver's `compatible` gave.
    pub open spec fn enumerated<A, V: Fn(A, usize, &'static str) -> A>(
        visitor: V,
        descriptors: Seq<DeviceDriverDescriptor<D, F>>,
        init: A,
        result: A,
    ) -> bool
        decreases descriptors.len(),
    {
        if descriptors.len() == 0 {
            result == init
        } else {
            exists|before: A, name: &'static str|
                {
                    &&& Self::enumerated(visitor, descriptors.drop_last(), init, before)
                    &&& descriptors.last().named(name)
                    &&& #[trigger] call_ensures(
                        visitor,
                        (before, descriptors.len() as usize, name),
                        result,
                    )
                }
        }
    }

    /// [`enumerated`](Self::enumerated) taken apart. Without descriptors the
    /// result is what the listing started from. With descriptors it is what
    /// one call of `visitor` returned: for the last descriptor, with its
    /// number and a name of its driver, on what the listing of those before
    /// it came to. A caller that knows what its `visitor` returns steps
    /// through a listing with this, one descriptor at a time.
    pub proof fn lemma_enumerated<A, V: Fn(A, usize, &'static str) -> A>(
        visitor: V,
        descriptors: Seq<DeviceDriverDescriptor<D, F>>,
        init: A,
        result: A,
    )
        ensures
            descriptors.len() == 0 ==> (Self::enumerated(visitor, descriptors, init, result)
                <==> result == init),
            descriptors.len() > 0 ==> (Self::enumerated(visitor, descriptors, init, result)
                <==> exists|before: A, name: &'static str|
                {
                    &&& Self::enumerated(visitor, descriptors.drop_last(), init, before)
                    &&& descriptors.last().named(name)
                    &&& #[trigger] call_ensures(
                        visitor,
                        (before, descriptors.len() as usize, name),
                        result,
                    )
                }),
    {
    }

    /// Whether the descriptors can be listed to `visitor`, starting from
    /// `init`: whatever the calls before have come to, the visitor accepts it
    /// together with the next driver's number and any name that the driver's
    /// `compatible` can give.
    pub open spec fn enumerable<A, V: Fn(A, usize, &'static str) -> A>(
        visitor: V,
        descriptors: Seq<DeviceDriverDescriptor<D, F>>,
        init: A,
    ) -> bool {
        forall|before: A, i: int, name: &'static str|
            0 <= i < descriptors.len() && Self::enumerated(
                visitor,
                descriptors.take(i),
                init,
                before,
            ) && descriptors[i].named(name) ==> #[trigger] call_requires(
                visitor,
                (before, (i + 1) as usize, name),
            )
    }

    /// Lists the registered drivers to `visitor`, in the order of
    /// registration: one call for each, with the driver's number, counted
    /// from one, and its name. Each call gets what the call before returned,
    /// the first gets `init`; what the last returned is the result.
    pub fn enumerate<A, V: Fn(A, usize, &'static str) -> A>(
        &self,
        init: A,
        visitor: V,
    ) -> (result: A)
        requires
            Self::enumerable(visitor, self@, init),
        ensures
            Self::enumerated(visitor, self@, init, result),
            self@.len() <= NUM_DRIVERS,
    {
        proof {
            use_type_invariant(self);
        }
        let mut result = init;
        let mut index: usize = 0;
        while index < self.next_index
            invariant
                index <= self.next_index <= NUM_DRIVERS,
                forall|i: int| 0 <= i < self.next_index ==> #[trigger] self.descriptors[i] is Some,
                Self::enumerable(visitor, self@, init),
                Self::enumerated(visitor, self@.take(index as int), init, result),
            decreases self.next_index - index,
        {
            if let Some(descriptor) = &self.descriptors[index] {
                let ghost before = result;
                let name = descriptor.device_driver.compatible();
                result = visitor(result, index + 1, name);
                assert(self@.take(index + 1).drop_last() =~= self@.take(index as int));
                assert(call_ensures(
                    visitor,
                    (before, self@.take(index + 1).len() as usize, name),
                    result,
                ));
            }
            index += 1;
        }
        assert(self@.take(index as int) =~= self@);
        result
    }

    /// Puts `descriptor` into the next free slot. A full table refuses it and
    /// stays as it is.
    pub fn register_driver(
        &mut self,
        descriptor: DeviceDriverDescriptor<D, F>,
    ) -> (outcome: Result<(), &'static str>)
        ensures
            outcome is Ok <==> old(self)@.len() < NUM_DRIVERS,
            outcome is Ok ==> final(self)@ == old(self)@.push(descriptor),
            outcome is Err ==> *final(self) == *old(self) && outcome->Err_0@
                == "Too many drivers registered"@,
            final(self)@.len() <= NUM_DRIVERS,
    {
        proof {
            use_type_invariant(&*self);
        }
        if self.next_index < NUM_DRIVERS {
            fill_next_slot(&mut self.next_index, &mut self.descriptors, descriptor);
            assert(self@ =~= old(self)@.push(descriptor));
            Ok(())
        } else {
            Err("Too many drivers registered")
        }
    }
}

/// The driver registry. Its state sits behind a lock; every operation takes
/// the lock for as long as it runs.
pub struct DriverManager<D: DeviceDriver, F: Fn() -> Result<(), &'static str>> {
    inner: NullLock<DriverManagerInner<D, F>>,
}

impl<D: DeviceDriver, F: Fn() -> Result<(), &'static str>> DriverManager<D, F> {
    /// The registered descriptors, first registered first.
    pub closed spec fn view(&self) -> Seq<DeviceDriverDescriptor<D, F>> {
        self.inner@@
    }

    /// A registry without drivers.
    pub fn new() -> (manager: Self)
        ensures
            manager@ == Seq::<DeviceDriverDescriptor<D, F>>::empty(),
    {
        DriverManager { inner: NullLock::new(DriverManagerInner::new()) }
    }

    /// Registers a driver: it is brought up after all those registered
    /// before it. The registry has room for [`NUM_DRIVERS`] drivers; one more
    /// is refused with a message, and the registry stays as it is.
    pub fn register_driver(
        &mut self,
        descriptor: DeviceDriverDescriptor<D, F>,
    ) -> (outcome: Result<(), &'static str>)
        ensures
            outcome is Ok <==> old(self)@.len() < NUM_DRIVERS,
            outcome is Ok ==> final(self)@ == old(self)@.push(descriptor),
            outcome is Err ==> final(self)@ == old(self)@ && outcome->Err_0@
                == "Too many drivers registered"@,
            final(self)@.len() <= NUM_DRIVERS,
    {
        let register = |inner: &mut DriverManagerInner<D, F>| -> (outcome: Result<
            (),
            &'static str,
        >)
            ensures
                final(inner)@.len() <= NUM_DRIVERS,
                outcome is Ok <==> old(inner)@.len() < NUM_DRIVERS,
                outcome is Ok ==> final(inner)@ == old(inner)@.push(descriptor),
                outcome is Err ==> final(inner)@ == old(inner)@ && outcome->Err_0@
                    == "Too many drivers registered"@,
            {
                inner.register_driver(descriptor)
            };
        self.inner.lock(register)
    }

    /// Brings the drivers up in the order of their registration: for each,
    /// its `init` and then, if that succeeded, its callback. The first
    /// failure ends the bring-up: no later step is attempted, and the error
    /// says which driver failed, at which step, and with what message. The
    /// registry itself stays as it is.
    pub fn init_drivers(&mut self) -> (outcome: Result<(), DriverInitError>)
        ensures
            final(self)@ == old(self)@,
            final(self)@.len() <= NUM_DRIVERS,
            DriverManagerInner::bring_up(old(self)@, outcome),
    {
        let bring_up = |inner: &mut DriverManagerInner<D, F>| -> (outcome: Result<
            (),
            DriverInitError,
        >)
            ensures
                *final(inner) == *old(inner),
                final(inner)@.len() <= NUM_DRIVERS,
                DriverManagerInner::bring_up(old(inner)@, outcome),
            {
                inner.init_drivers()
            };
        self.inner.lock(bring_up)
    }

    /// Calls `f` once for each registered descriptor, in the order of
    /// registration. Each call gets what the call before returned, the first
    /// gets `init`; what the last returned is the result.
    pub fn for_each_descriptor<A, V: Fn(A, &DeviceDriverDescriptor<D, F>) -> A>(
        &mut self,
        init: A,
        f: V,
    ) -> (result: A)
        requires
            DriverManagerInner::visitable(f, old(self)@, init),
        ensures
            final(self)@ == old(self)@,
            final(self)@.len() <= NUM_DRIVERS,
            DriverManagerInner::visited(f, old(self)@, init, result),
    {
        let visit = |inner: &mut DriverManagerInner<D, F>| -> (result: A)
            requires
                DriverManagerInner::visitable(f, inner@, init),
            ensures
                *final(inner) == *old(inner),
                final(inner)@.len() <= NUM_DRIVERS,
                DriverManagerInner::visited(f, old(inner)@, init, result),
            {
                inner.for_each_descriptor(init, f)
            };
        self.inner.lock(visit)
    }

    /// Lists the registered drivers to `visitor`, in the order of
    /// registration: one call for each, with the driver's number, counted
    /// from one, and its name. Each call gets what the call before returned,
    /// the first gets `init`; what the last returned is the result.
    pub fn enumerate<A, V: Fn(A, usize, &'static str) -> A>(
        &mut self,
        init: A,
        visitor: V,
    ) -> (result: A)
        requires
            DriverManagerInner::<D, F>::enumerable(visitor, old(self)@, init),
        ensures
            final(self)@ == old(self)@,
            final(self)@.len() <= NUM_DRIVERS,
            DriverManagerInner::<D, F>::enumerated(visitor, old(self)@, init, result),
    {
        let list = |inner: &mut DriverManagerInner<D, F>| -> (result: A)
            requires
                DriverManagerInner::<D, F>::enumerable(visitor, inner@, init),
            ensures
                *final(inner) == *old(inner),
                final(inner)@.len() <= NUM_DRIVERS,
                DriverManagerInner::<D, F>::enumerated(visitor, old(inner)@, init, result),
            {
                inner.enumerate(init, visitor)
            };
        self.inner.lock(list)
    }
}

} // verus!
