//! Output for the emulator: what is written goes out byte for byte, with a
//! carriage return before every newline.

use vstd::prelude::*;

verus! {

/// The byte that goes out for `c`: the low eight bits of its code.
pub open spec fn emitted(c: char) -> u8 {
    ((c as u32) & 0xff) as u8
}

/// The bytes that go out for `text`: those of its characters in order, with
/// a carriage return put before every newline.
pub open spec fn output(text: Seq<char>) -> Seq<u8>
    decreases text.len(),
{
    if text.len() == 0 {
        Seq::empty()
    } else if text.last() == '\n' {
        output(text.drop_last()).push(emitted('\r')).push(emitted('\n'))
    } else {
        output(text.drop_last()).push(emitted(text.last()))
    }
}

/// The beginning of a text makes no more bytes than the whole text.
proof fn lemma_output_grows(text: Seq<char>, upto: int)
    requires
        0 <= upto <= text.len(),
    ensures
        output(text.take(upto)).len() <= output(text).len(),
    decreases text.len() - upto,
{
    if upto == text.len() {
        assert(text.take(upto) =~= text);
    } else {
        lemma_output_grows(text, upto + 1);
        assert(text.take(upto + 1).drop_last() =~= text.take(upto));
    }
}

/// The output's count of what went out.
pub struct QEMUOutputInner {
    chars_written: usize,
}

impl QEMUOutputInner {
    /// The number of bytes that went out so far.
    pub closed spec fn written(&self) -> nat {
        self.chars_written as nat
    }

    /// An output through which nothing went yet.
    pub fn new() -> (inner: QEMUOutputInner)
        ensures
            inner.written() == 0,
    {
        QEMUOutputInner { chars_written: 0 }
    }

    /// Counts `c` as written and gives the byte to send for it.
    pub fn write_char(&mut self, c: char) -> (byte: u8)
        requires
            old(self).written() < usize::MAX,
        ensures
            byte == emitted(c),
            final(self).written() == old(self).written() + 1,
    {
        let code: u32 = c as u32;
        let low: u32 = code & 0xff;
        assert(low <= 0xff) by (bit_vector)
            requires
                low == code & 0xff,
        ;
        self.chars_written += 1;
        low as u8
    }

    /// Counts `s` as written and gives the bytes to send for it, a carriage
    /// return before every newline.
    pub fn write_str(&mut self, s: &str) -> (bytes: Vec<u8>)
        requires
            old(self).written() + output(s@).len() <= usize::MAX,
        ensures
            bytes@ == output(s@),
            final(self).written() == old(self).written() + output(s@).len(),
    {
        let mut bytes: Vec<u8> = Vec::new();
        let ghost mut done: Seq<char> = Seq::empty();
        for c in chars: s.chars()
            invariant
                chars.seq() == s@,
                done == s@.take(chars.index() as int),
                bytes@ == output(done),
                self.written() == old(self).written() + bytes@.len(),
                old(self).written() + output(s@).len() <= usize::MAX,
        {
            proof {
                assert(s@.take(chars.index() + 1).drop_last() =~= done);
                done = s@.take(chars.index() + 1);
                lemma_output_grows(s@, chars.index() + 1);
            }
            if c == '\n' {
                let carriage_return = self.write_char('\r');
                bytes.push(carriage_return);
            }
            let byte = self.write_char(c);
            bytes.push(byte);
        }
        assert(done =~= s@);
        bytes
    }

    /// The number of bytes that went out so far.
    pub fn chars_written(&self) -> (count: usize)
        ensures
            count == self.written(),
    {
        self.chars_written
    }
}

} // verus!
