//! A small string builder: rendered diagnostic output is accumulated here so
//! it can be printed or embedded in other responses.

use vstd::prelude::*;

use crate::text::{push_char, push_str};

verus! {

/// Accumulates text piece by piece; [`Builder::string`] hands the result out.
pub struct Builder {
    buffer: String,
}

impl View for Builder {
    type V = Seq<char>;

    closed spec fn view(&self) -> Seq<char> {
        self.buffer@
    }
}

impl Builder {
    /// An empty builder.
    pub fn new() -> (r: Builder)
        ensures
            r@ == Seq::<char>::empty(),
    {
        Builder { buffer: String::new() }
    }

    /// An empty builder; the expected final size is only a hint.
    pub fn with_capacity(cap: usize) -> (r: Builder)
        ensures
            r@ == Seq::<char>::empty(),
    {
        let _ = cap;
        Builder { buffer: String::new() }
    }

    /// Appends one character.
    pub fn write_char(&mut self, c: char)
        ensures
            final(self)@ == old(self)@.push(c),
    {
        push_char(&mut self.buffer, c);
    }

    /// Appends the character one raw byte stands for.
    pub fn write_byte(&mut self, byte: u8)
        ensures
            final(self)@ == old(self)@.push(byte as char),
    {
        push_char(&mut self.buffer, byte as char);
    }

    /// Appends a string slice.
    pub fn write_str(&mut self, s: &str)
        ensures
            final(self)@ == old(self)@ + s@,
    {
        push_str(&mut self.buffer, s);
    }

    /// Appends an owned string.
    pub fn write_string(&mut self, string: String)
        ensures
            final(self)@ == old(self)@ + string@,
    {
        push_str(&mut self.buffer, string.as_str());
    }

    /// Consumes the builder and hands the accumulated text out.
    pub fn string(self) -> (r: String)
        ensures
            r@ == self@,
    {
        self.buffer
    }
}

} // verus!
