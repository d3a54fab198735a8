//! Console registry.
//!
//! All text that the kernel reads or writes goes through the one console
//! that is registered. Until bring-up has registered a real console, the
//! [`NullConsole`] stands in, so that output from early code is dropped
//! rather than fatal. Once a console is registered there is no way back.

use vstd::prelude::*;
use crate::console::interface::{All, Read, Statistics, Write};
use crate::console::null_console::NullConsole;
use crate::synchronization::interface::Mutex;
use crate::synchronization::NullLock;

pub mod interface;
pub mod null_console;

verus! {

/// The console in use.
pub enum ActiveConsole<C> {
    /// No console has been registered yet: the null console is in use.
    Null(NullConsole),
    /// The console that was registered last.
    Registered(C),
}

impl<C> ActiveConsole<C> {
    /// The console in use once `console` has been registered, whatever was
    /// in use before.
    pub open spec fn register(self, console: C) -> Self {
        ActiveConsole::Registered(console)
    }
}

/// Registering is final: what is in use after a console was registered is
/// that console, never the null console again. Registering a second console
/// replaces the first, and registering the same console twice is the same as
/// registering it once.
pub proof fn lemma_last_registered_is_current<C>(before: ActiveConsole<C>, first: C, second: C)
    ensures
        before.register(first) == ActiveConsole::Registered(first),
        !(before.register(first) is Null),
        before.register(first).register(second) == ActiveConsole::Registered(second),
        before.register(first).register(first) == before.register(first),
{
}

/// Output goes to the console in use. The null console drops it and always
/// succeeds.
impl<C: All> Write for ActiveConsole<C> {
    fn write_char(&self, c: char)
        ensures
            self matches ActiveConsole::Registered(console) ==> call_ensures(
                C::write_char,
                (&console, c),
                (),
            ),
    {
        match self {
            ActiveConsole::Null(null) => null.write_char(c),
            ActiveConsole::Registered(console) => console.write_char(c),
        }
    }

    fn write_fmt(&self, args: &str) -> (outcome: Result<(), &'static str>)
        ensures
            self is Null ==> outcome is Ok,
            self matches ActiveConsole::Registered(console) ==> call_ensures(
                C::write_fmt,
                (&console, args),
                outcome,
            ),
    {
        match self {
            ActiveConsole::Null(null) => null.write_fmt(args),
            ActiveConsole::Registered(console) => console.write_fmt(args),
        }
    }

    fn flush(&self)
        ensures
            self matches ActiveConsole::Registered(console) ==> call_ensures(
                C::flush,
                (&console,),
                (),
            ),
    {
        match self {
            ActiveConsole::Null(null) => null.flush(),
            ActiveConsole::Registered(console) => console.flush(),
        }
    }
}

/// Input comes from the console in use. The null console has none: reading
/// from it gives a space at once.
impl<C: All> Read for ActiveConsole<C> {
    fn read_char(&self) -> (c: char)
        ensures
            self is Null ==> c == ' ',
            self matches ActiveConsole::Registered(console) ==> call_ensures(
                C::read_char,
                (&console,),
                c,
            ),
    {
        match self {
            ActiveConsole::Null(null) => null.read_char(),
            ActiveConsole::Registered(console) => console.read_char(),
        }
    }

    fn clear_rx(&self)
        ensures
            self matches ActiveConsole::Registered(console) ==> call_ensures(
                C::clear_rx,
                (&console,),
                (),
            ),
    {
        match self {
            ActiveConsole::Null(null) => null.clear_rx(),
            ActiveConsole::Registered(console) => console.clear_rx(),
        }
    }
}

/// The counts are those of the console in use. The null console's are zero.
impl<C: All> Statistics for ActiveConsole<C> {
    fn chars_written(&self) -> (count: usize)
        ensures
            self is Null ==> count == 0,
            self matches ActiveConsole::Registered(console) ==> call_ensures(
                C::chars_written,
                (&console,),
                count,
            ),
    {
        match self {
            ActiveConsole::Null(null) => null.chars_written(),
            ActiveConsole::Registered(console) => console.chars_written(),
        }
    }

    fn chars_read(&self) -> (count: usize)
        ensures
            self is Null ==> count == 0,
            self matches ActiveConsole::Registered(console) ==> call_ensures(
                C::chars_read,
                (&console,),
                count,
            ),
    {
        match self {
            ActiveConsole::Null(null) => null.chars_read(),
            ActiveConsole::Registered(console) => console.chars_read(),
        }
    }
}

impl<C: All> All for ActiveConsole<C> {

}

/// Holds the console in use, behind a lock.
pub struct ConsoleRegistry<C> {
    cur_console: NullLock<ActiveConsole<C>>,
}

impl<C: All> ConsoleRegistry<C> {
    /// The console in use.
    pub closed spec fn view(&self) -> ActiveConsole<C> {
        self.cur_console@
    }

    /// A registry in which no console has been registered: the null console
    /// is in use.
    pub fn new() -> (registry: Self)
        ensures
            registry@ == ActiveConsole::<C>::Null(NullConsole),
    {
        ConsoleRegistry { cur_console: NullLock::new(ActiveConsole::Null(NullConsole)) }
    }
}

/// Makes `console` the console in use, in place of whatever was in use.
pub fn register_console<C: All>(registry: &mut ConsoleRegistry<C>, console: C)
    ensures
        final(registry)@ == old(registry)@.register(console),
{
    let replace = |current: &mut ActiveConsole<C>|
        ensures
            *final(current) == ActiveConsole::Registered(console),
        {
            *current = ActiveConsole::Registered(console);
        };
    registry.cur_console.lock(replace)
}

/// The console in use: the one registered last, or the null console if none
/// was registered.
pub fn console<C: All + Copy>(registry: &mut ConsoleRegistry<C>) -> (current: ActiveConsole<C>)
    ensures
        current == old(registry)@,
        final(registry)@ == old(registry)@,
{
    let read = |current: &mut ActiveConsole<C>| -> (copy: ActiveConsole<C>)
        ensures
            copy == *old(current),
            *final(current) == *old(current),
        {
            match current {
                ActiveConsole::Null(null) => ActiveConsole::Null(*null),
                ActiveConsole::Registered(console) => ActiveConsole::Registered(*console),
            }
        };
    registry.cur_console.lock(read)
}

} // verus!
