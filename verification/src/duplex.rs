//! One object for the two halves of a connection.
//!
//! A transport may hand out a connection as two values: one to read from
//! and one to write to, each owned on its own. Layers that frame and decode
//! want a single value that can do both. [`Duplex`] is that value. It owns
//! both halves and lends out either one, and what is done through one half
//! cannot reach the other.

use vstd::prelude::*;

verus! {

/// A read half and a write half, owned together.
pub struct Duplex<R, W> {
    reader: R,
    writer: W,
}

impl<R, W> Duplex<R, W> {
    /// The read half.
    pub closed spec fn reader(&self) -> R {
        self.reader
    }

    /// The write half.
    pub closed spec fn writer(&self) -> W {
        self.writer
    }

    /// Joins the two halves of one connection.
    pub fn new(reader: R, writer: W) -> (duplex: Self)
        ensures
            duplex.reader() == reader,
            duplex.writer() == writer,
    {
        Duplex { reader, writer }
    }

    /// Lends out the read half. Whatever the borrower does with it, the
    /// write half stays as it was.
    pub fn reader_mut(&mut self) -> (half: &mut R)
        ensures
            *half == old(self).reader(),
            final(self).reader() == *final(half),
            final(self).writer() == old(self).writer(),
    {
        &mut self.reader
    }

    /// Lends out the write half. Whatever the borrower does with it, be it
    /// a write, a flush or the closing of that direction, the read half
    /// stays as it was.
    pub fn writer_mut(&mut self) -> (half: &mut W)
        ensures
            *half == old(self).writer(),
            final(self).writer() == *final(half),
            final(self).reader() == old(self).reader(),
    {
        &mut self.writer
    }

    /// Lends out both halves at once, for a reader and a writer that work
    /// at the same time.
    pub fn halves_mut(&mut self) -> (halves: (&mut R, &mut W))
        ensures
            *halves.0 == old(self).reader(),
            *halves.1 == old(self).writer(),
            final(self).reader() == *final(halves.0),
            final(self).writer() == *final(halves.1),
    {
        (&mut self.reader, &mut self.writer)
    }

    /// Takes the pair apart again.
    pub fn into_halves(self) -> (halves: (R, W))
        ensures
            halves.0 == self.reader(),
            halves.1 == self.writer(),
    {
        (self.reader, self.writer)
    }
}

} // verus!
