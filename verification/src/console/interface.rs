//! What a console offers.

use vstd::prelude::*;

verus! {

/// Output to the console.
pub trait Write {
    /// Writes one character.
    fn write_char(&self, c: char);

    /// Writes text that the caller has formatted. A failure comes with a
    /// message.
    fn write_fmt(&self, args: &str) -> Result<(), &'static str>;

    /// Waits until everything written has left the device.
    fn flush(&self);
}

/// Input from the console.
pub trait Read {
    /// Reads one character, waiting for it if none has arrived. A console
    /// without input keeps this default, which gives a space.
    fn read_char(&self) -> (c: char)
        default_ensures
            c == ' ',
    {
        ' '
    }

    /// Throws away what has arrived and was not read.
    fn clear_rx(&self);
}

/// Counts of the console's traffic.
pub trait Statistics {
    /// The number of characters written so far. A console that does not
    /// count keeps this default, which gives zero.
    fn chars_written(&self) -> (count: usize)
        default_ensures
            count == 0,
    {
        0
    }

    /// The number of characters read so far. A console that does not count
    /// keeps this default, which gives zero.
    fn chars_read(&self) -> (count: usize)
        default_ensures
            count == 0,
    {
        0
    }
}

/// A console with all three capabilities.
pub trait All: Read + Write + Statistics {

}

/// A shared reference to a console writes as the console does.
impl<'a, T: Write + ?Sized> Write for &'a T {
    fn write_char(&self, c: char)
        ensures
            call_ensures(T::write_char, (*self, c), ()),
    {
        (**self).write_char(c)
    }

    fn write_fmt(&self, args: &str) -> (outcome: Result<(), &'static str>)
        ensures
            call_ensures(T::write_fmt, (*self, args), outcome),
    {
        (**self).write_fmt(args)
    }

    fn flush(&self)
        ensures
            call_ensures(T::flush, (*self,), ()),
    {
        (**self).flush()
    }
}

/// A shared reference to a console reads as the console does.
impl<'a, T: Read + ?Sized> Read for &'a T {
    fn read_char(&self) -> (c: char)
        ensures
            call_ensures(T::read_char, (*self,), c),
    {
        (**self).read_char()
    }

    fn clear_rx(&self)
        ensures
            call_ensures(T::clear_rx, (*self,), ()),
    {
        (**self).clear_rx()
    }
}

/// A shared reference to a console counts as the console does.
impl<'a, T: Statistics + ?Sized> Statistics for &'a T {
    fn chars_written(&self) -> (count: usize)
        ensures
            call_ensures(T::chars_written, (*self,), count),
    {
        (**self).chars_written()
    }

    fn chars_read(&self) -> (count: usize)
        ensures
            call_ensures(T::chars_read, (*self,), count),
    {
        (**self).chars_read()
    }
}

/// A shared reference to a console is a console: the registry can hold a
/// reference to a console that lives elsewhere.
impl<'a, T: All + ?Sized> All for &'a T {

}

} // verus!
