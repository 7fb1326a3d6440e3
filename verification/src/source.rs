//! The byte source that every decoder reads from.

use vstd::prelude::*;

verus! {

/// A single-pass source of bytes with a movable end.
///
/// The source owns its bytes.  Decoders see the bytes between the read
/// position and the current bound (the view); [`Source::take`] lowers the
/// bound so that a nested decoder cannot read past a declared size, and
/// [`Source::release`] raises it again.
pub struct Source {
    bytes: Vec<u8>,
    pos: usize,
    end: usize,
}

impl View for Source {
    type V = Seq<u8>;

    /// The bytes that are still to be read before the current bound.
    closed spec fn view(&self) -> Seq<u8> {
        self.bytes@.subrange(self.pos as int, self.end as int)
    }
}

impl Source {
    #[verifier::type_invariant]
    spec fn inv(self) -> bool {
        self.pos <= self.end <= self.bytes.len()
    }

    /// The bytes behind the current bound, hidden until the bound is released.
    pub closed spec fn beyond(&self) -> Seq<u8> {
        self.bytes@.subrange(self.end as int, self.bytes.len() as int)
    }

    /// A source that yields `bytes` from first to last.
    pub fn new(bytes: Vec<u8>) -> (s: Source)
        ensures
            s@ == bytes@,
            s.beyond() == Seq::<u8>::empty(),
    {
        let end = bytes.len();
        let s = Source { bytes, pos: 0, end };
        assert(s@ =~= bytes@);
        assert(s.beyond() =~= Seq::<u8>::empty());
        s
    }

    /// The number of bytes left before the bound.
    pub fn remaining(&self) -> (n: usize)
        ensures
            n == self@.len(),
    {
        proof {
            use_type_invariant(self);
        }
        self.end - self.pos
    }

    /// Reads one byte, or reports that none is left.
    pub fn next(&mut self) -> (r: Option<u8>)
        ensures
            final(self).beyond() == old(self).beyond(),
            old(self)@.len() == 0 ==> r is None && final(self)@ == old(self)@,
            old(self)@.len() > 0 ==> r == Some(old(self)@[0]) && final(self)@ == old(self)@.skip(1),
    {
        proof {
            use_type_invariant(&*self);
        }
        if self.pos < self.end {
            let byte = self.bytes[self.pos];
            self.pos = self.pos + 1;
            assert(final(self)@ =~= old(self)@.skip(1));
            Some(byte)
        } else {
            None
        }
    }

    /// Looks at the next byte without reading it.
    pub fn peek(&self) -> (r: Option<u8>)
        ensures
            self@.len() == 0 ==> r is None,
            self@.len() > 0 ==> r == Some(self@[0]),
    {
        proof {
            use_type_invariant(self);
        }
        if self.pos < self.end {
            Some(self.bytes[self.pos])
        } else {
            None
        }
    }

    /// Lowers the bound so that at most `n` more bytes can be read, and
    /// returns how many bytes it has hidden.
    pub fn take(&mut self, n: usize) -> (hidden: usize)
        ensures
            final(self)@ == old(self)@.take(vstd::math::min(n as int, old(self)@.len() as int)),
            final(self).beyond() == old(self)@.skip(vstd::math::min(n as int, old(self)@.len() as int))
                + old(self).beyond(),
            hidden == old(self)@.len() - final(self)@.len(),
    {
        proof {
            use_type_invariant(&*self);
        }
        let left = self.end - self.pos;
        if n < left {
            self.end = self.pos + n;
            assert(final(self)@ =~= old(self)@.take(n as int));
            assert(final(self).beyond() =~= old(self)@.skip(n as int) + old(self).beyond());
            left - n
        } else {
            assert(final(self)@ =~= old(self)@.take(old(self)@.len() as int));
            assert(final(self).beyond() =~= old(self)@.skip(old(self)@.len() as int) + old(self).beyond());
            0
        }
    }

    /// Raises the bound by `hidden` bytes.
    pub fn release(&mut self, hidden: usize)
        requires
            hidden <= old(self).beyond().len(),
        ensures
            final(self)@ == old(self)@ + old(self).beyond().take(hidden as int),
            final(self).beyond() == old(self).beyond().skip(hidden as int),
    {
        proof {
            use_type_invariant(&*self);
        }
        self.end = self.end + hidden;
        assert(final(self)@ =~= old(self)@ + old(self).beyond().take(hidden as int));
        assert(final(self).beyond() =~= old(self).beyond().skip(hidden as int));
    }

    /// Reads every byte up to the bound and returns how many there were.
    pub fn count(&mut self) -> (n: usize)
        ensures
            n == old(self)@.len(),
            final(self)@ == Seq::<u8>::empty(),
            final(self).beyond() == old(self).beyond(),
    {
        proof {
            use_type_invariant(&*self);
        }
        let n = self.end - self.pos;
        self.pos = self.end;
        assert(final(self)@ =~= Seq::<u8>::empty());
        n
    }
}

} // verus!
