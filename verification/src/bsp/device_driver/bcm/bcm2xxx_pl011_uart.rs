//! PL011 UART: the driver's bookkeeping and its rules for characters.
//!
//! The registers themselves are the caller's: it polls the flags, transfers
//! the data words, and asks here what to make of them.

use vstd::prelude::*;

verus! {

/// Whether a read waits for a character to arrive.
#[derive(Clone, Copy, Debug, PartialEq, Eq)]
pub enum BlockingMode {
    /// Wait until a character has arrived.
    Blocking,
    /// Give up at once if none has arrived.
    NonBlocking,
}

/// What a read does next, once it has seen whether the receive FIFO is
/// empty.
#[derive(Clone, Copy, Debug, PartialEq, Eq)]
pub enum ReadStep {
    /// Nothing has arrived and the read does not wait: it ends without a
    /// character.
    GiveUp,
    /// Nothing has arrived yet: look at the FIFO again.
    Wait,
    /// A character has arrived: take its word from the data register.
    Take,
}

/// The character that a word of the data register stands for: its low eight
/// bits, with a carriage return turned into a newline.
pub open spec fn converted(data: u32) -> char {
    let received = (data & 0xff) as u8 as char;
    if received == '\r' {
        '\n'
    } else {
        received
    }
}

/// The driver's counts of the characters that went through it.
pub struct PL011UartInner {
    chars_written: usize,
    chars_read: usize,
}

impl PL011UartInner {
    /// The number of characters written so far.
    pub closed spec fn written(&self) -> nat {
        self.chars_written as nat
    }

    /// The number of characters read so far.
    pub closed spec fn read(&self) -> nat {
        self.chars_read as nat
    }

    /// A driver through which nothing went yet.
    pub fn new() -> (inner: Self)
        ensures
            inner.written() == 0,
            inner.read() == 0,
    {
        PL011UartInner { chars_written: 0, chars_read: 0 }
    }

    /// Counts `c` as written and gives the word to put into the data
    /// register for it.
    pub fn write_char(&mut self, c: char) -> (data: u32)
        requires
            old(self).written() < usize::MAX,
        ensures
            data == c as u32,
            final(self).written() == old(self).written() + 1,
            final(self).read() == old(self).read(),
    {
        self.chars_written += 1;
        c as u32
    }

    /// Counts the characters of `s` as written and gives the words to put
    /// into the data register for them, one after the other.
    pub fn write_str(&mut self, s: &str) -> (words: Vec<u32>)
        requires
            old(self).written() + s@.len() <= usize::MAX,
        ensures
            words@ == s@.map_values(|c: char| c as u32),
            final(self).written() == old(self).written() + s@.len(),
            final(self).read() == old(self).read(),
    {
        let mut words: Vec<u32> = Vec::new();
        for c in chars: s.chars()
            invariant
                chars.seq() == s@,
                words@ == s@.take(chars.index() as int).map_values(|c: char| c as u32),
                self.written() == old(self).written() + chars.index(),
                self.read() == old(self).read(),
                old(self).written() + s@.len() <= usize::MAX,
        {
            let word = self.write_char(c);
            words.push(word);
            assert(s@.take(chars.index() + 1).map_values(|c: char| c as u32) =~= s@.take(
                chars.index() as int,
            ).map_values(|c: char| c as u32).push(word));
        }
        assert(s@.take(s@.len() as int) =~= s@);
        words
    }

    /// What a read in `blocking_mode` does next when it finds the receive
    /// FIFO empty or not.
    pub fn read_step(blocking_mode: BlockingMode, rx_fifo_empty: bool) -> (step: ReadStep)
        ensures
            step == if !rx_fifo_empty {
                ReadStep::Take
            } else if blocking_mode == BlockingMode::NonBlocking {
                ReadStep::GiveUp
            } else {
                ReadStep::Wait
            },
    {
        if !rx_fifo_empty {
            ReadStep::Take
        } else {
            match blocking_mode {
                BlockingMode::NonBlocking => ReadStep::GiveUp,
                BlockingMode::Blocking => ReadStep::Wait,
            }
        }
    }

    /// Counts the word `data`, taken from the data register, as read and
    /// gives the character that it stands for.
    pub fn read_char_converting(&mut self, data: u32) -> (c: char)
        requires
            old(self).read() < usize::MAX,
        ensures
            c == converted(data),
            final(self).read() == old(self).read() + 1,
            final(self).written() == old(self).written(),
    {
        let low: u32 = data & 0xff;
        assert(low <= 0xff) by (bit_vector)
            requires
                low == data & 0xff,
        ;
        let mut ret = low as u8 as char;
        if ret == '\r' {
            ret = '\n';
        }
        self.chars_read += 1;
        ret
    }

    /// The number of characters written so far.
    pub fn chars_written(&self) -> (count: usize)
        ensures
            count == self.written(),
    {
        self.chars_written
    }

    /// The number of characters read so far.
    pub fn chars_read(&self) -> (count: usize)
        ensures
            count == self.read(),
    {
        self.chars_read
    }
}

} // verus!
