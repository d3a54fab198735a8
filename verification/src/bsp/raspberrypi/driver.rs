//! Registration of the board's drivers.
//!
//! The board has a GPIO block, which routes the UART's lines to the header
//! pins, and a UART, which becomes the console once it is up. Both are
//! registered once, the GPIO block first: the order of registration is the
//! order of bring-up, and the UART is of no use before its pins are routed.

use vstd::prelude::*;
use crate::console::interface::All;
use crate::console::{register_console, ActiveConsole, ConsoleRegistry};
use crate::driver::interface::DeviceDriver;
use crate::driver::{DeviceDriverDescriptor, DriverManager, NUM_DRIVERS};

verus! {

/// What happens once the UART is up: it becomes the console in use.
pub fn post_init_uart<C: All>(
    registry: &mut ConsoleRegistry<C>,
    uart: C,
) -> (outcome: Result<(), &'static str>)
    ensures
        outcome is Ok,
        final(registry)@ == ActiveConsole::Registered(uart),
{
    register_console(registry, uart);
    Ok(())
}

/// Registers the UART's driver with the callback to run once it is up.
pub fn driver_uart<D: DeviceDriver, F: Fn() -> Result<(), &'static str>>(
    manager: &mut DriverManager<D, F>,
    uart: D,
    post_init_uart: F,
) -> (outcome: Result<(), &'static str>)
    requires
        call_requires(post_init_uart, ()),
    ensures
        outcome is Ok <==> old(manager)@.len() < NUM_DRIVERS,
        outcome is Ok ==> {
            &&& final(manager)@.len() == old(manager)@.len() + 1
            &&& final(manager)@.drop_last() == old(manager)@
            &&& final(manager)@.last().driver() == uart
            &&& final(manager)@.last().callback() == Some(post_init_uart)
        },
        outcome is Err ==> final(manager)@ == old(manager)@ && outcome->Err_0@
            == "Too many drivers registered"@,
        final(manager)@.len() <= NUM_DRIVERS,
{
    let d = DeviceDriverDescriptor::new(uart, Some(post_init_uart));
    let outcome = manager.register_driver(d);
    proof {
        if outcome is Ok {
            assert(manager@.drop_last() =~= old(manager)@);
        }
    }
    outcome
}

/// Registers the GPIO block's driver with the callback to run once it is up.
pub fn driver_gpio<D: DeviceDriver, F: Fn() -> Result<(), &'static str>>(
    manager: &mut DriverManager<D, F>,
    gpio: D,
    post_init_gpio: F,
) -> (outcome: Result<(), &'static str>)
    requires
        call_requires(post_init_gpio, ()),
    ensures
        outcome is Ok <==> old(manager)@.len() < NUM_DRIVERS,
        outcome is Ok ==> {
            &&& final(manager)@.len() == old(manager)@.len() + 1
            &&& final(manager)@.drop_last() == old(manager)@
            &&& final(manager)@.last().driver() == gpio
            &&& final(manager)@.last().callback() == Some(post_init_gpio)
        },
        outcome is Err ==> final(manager)@ == old(manager)@ && outcome->Err_0@
            == "Too many drivers registered"@,
        final(manager)@.len() <= NUM_DRIVERS,
{
    let d = DeviceDriverDescriptor::new(gpio, Some(post_init_gpio));
    let outcome = manager.register_driver(d);
    proof {
        if outcome is Ok {
            assert(manager@.drop_last() =~= old(manager)@);
        }
    }
    outcome
}

/// Registers the board's drivers: the GPIO block, then the UART, so that
/// the pins are routed before the UART comes up. This is to happen once:
/// `init_done` records that it has, and a second call is refused with a
/// message and changes nothing. The record is made only when both drivers
/// are registered; where the registry has no room for them, its message
/// comes back and the record stays unmade.
pub fn init<D: DeviceDriver, F: Fn() -> Result<(), &'static str>>(
    init_done: &mut bool,
    manager: &mut DriverManager<D, F>,
    gpio: D,
    post_init_gpio: F,
    uart: D,
    post_init_uart: F,
) -> (outcome: Result<(), &'static str>)
    requires
        call_requires(post_init_gpio, ()),
        call_requires(post_init_uart, ()),
    ensures
        outcome is Ok <==> !*old(init_done) && old(manager)@.len() + 2 <= NUM_DRIVERS,
        outcome is Ok ==> {
            let registered = old(manager)@.len() as int;
            &&& *final(init_done)
            &&& final(manager)@.len() == registered + 2
            &&& final(manager)@.take(registered) == old(manager)@
            &&& final(manager)@[registered].driver() == gpio
            &&& final(manager)@[registered].callback() == Some(post_init_gpio)
            &&& final(manager)@[registered + 1].driver() == uart
            &&& final(manager)@[registered + 1].callback() == Some(post_init_uart)
        },
        *old(init_done) ==> {
            &&& outcome is Err
            &&& outcome->Err_0@ == "Init already done"@
            &&& *final(init_done)
            &&& final(manager)@ == old(manager)@
        },
        !*old(init_done) ==> final(manager)@.len() <= NUM_DRIVERS,
        !*old(init_done) && outcome is Err ==> {
            &&& !*final(init_done)
            &&& outcome->Err_0@ == "Too many drivers registered"@
            &&& old(manager)@.len() == NUM_DRIVERS ==> final(manager)@ == old(manager)@
            &&& old(manager)@.len() < NUM_DRIVERS ==> {
                &&& final(manager)@.len() == NUM_DRIVERS
                &&& final(manager)@.drop_last() == old(manager)@
                &&& final(manager)@.last().driver() == gpio
                &&& final(manager)@.last().callback() == Some(post_init_gpio)
            }
        },
{
    if *init_done {
        return Err("Init already done");
    }
    if let Err(message) = driver_gpio(manager, gpio, post_init_gpio) {
        return Err(message);
    }
    let ghost with_gpio = manager@;
    if let Err(message) = driver_uart(manager, uart, post_init_uart) {
        return Err(message);
    }
    *init_done = true;
    proof {
        let registered = old(manager)@.len() as int;
        assert(manager@.drop_last() == with_gpio);
        assert(with_gpio.drop_last() == old(manager)@);
        assert(manager@.take(registered) =~= old(manager)@);
        assert(manager@[registered] == with_gpio[registered]);
    }
    Ok(())
}

} // verus!
