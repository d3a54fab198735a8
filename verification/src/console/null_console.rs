//! The console that is there before any other.

use vstd::prelude::*;
use crate::console::interface::{All, Read, Statistics, Write};

verus! {

/// A console that does nothing: what is written to it is dropped, it has
/// nothing to read, and its counts stay at zero. It takes the place of a
/// real console until one is registered, so that early output is harmless.
#[derive(Clone, Copy, Debug, PartialEq, Eq)]
pub struct NullConsole;

impl Write for NullConsole {
    fn write_char(&self, _c: char) {
    }

    fn write_fmt(&self, _args: &str) -> (outcome: Result<(), &'static str>)
        ensures
            outcome is Ok,
    {
        Ok(())
    }

    fn flush(&self) {
    }
}

impl Read for NullConsole {
    fn clear_rx(&self) {
    }
}

impl Statistics for NullConsole {

}

impl All for NullConsole {

}

} // verus!
